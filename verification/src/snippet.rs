//! Code snippets shown in the snippet vault, and the two starter collections.
use vstd::prelude::*;
use crate::language::CodeLanguage;

verus! {

/// A named piece of example code with its documentation.
#[derive(Clone, Debug, PartialEq)]
pub struct CodeSnippet {
    pub name: String,
    pub lang: CodeLanguage,
    pub description: String,
    pub api_docs: String,
    pub source_code: String,
}

/// A snippet's text as character sequences.
pub struct SnippetView {
    pub name: Seq<char>,
    pub lang: CodeLanguage,
    pub description: Seq<char>,
    pub api_docs: Seq<char>,
    pub source_code: Seq<char>,
}

pub open spec fn snippet_view(
    name: Seq<char>,
    lang: CodeLanguage,
    description: Seq<char>,
    api_docs: Seq<char>,
    source_code: Seq<char>,
) -> SnippetView {
    SnippetView { name, lang, description, api_docs, source_code }
}

impl View for CodeSnippet {
    type V = SnippetView;

    open spec fn view(&self) -> SnippetView {
        snippet_view(self.name@, self.lang, self.description@, self.api_docs@, self.source_code@)
    }
}

/// The views of a list of snippets.
pub open spec fn snippet_views(s: Seq<CodeSnippet>) -> Seq<SnippetView> {
    s.map_values(|c: CodeSnippet| c@)
}

impl CodeSnippet {
    /// A snippet holding copies of the given texts.
    pub fn new(name: &str, lang: CodeLanguage, description: &str, api_docs: &str, source_code: &str) -> (s: Self)
        ensures
            s@ == snippet_view(name@, lang, description@, api_docs@, source_code@),
    {
        CodeSnippet {
            name: name.to_string(),
            lang,
            description: description.to_string(),
            api_docs: api_docs.to_string(),
            source_code: source_code.to_string(),
        }
    }
}

/// The playground's snippet vault when the dashboard opens: a greeting per language, then the grid's own tools.
pub open spec fn starter_snippets() -> Seq<SnippetView> {
    seq![
        snippet_view("hello-rust"@, CodeLanguage::Rust, "Basic console print."@, "println! macro."@, "fn main() {\n    println!(\"Hello, world!\");\n}"@),
        snippet_view("hello-lua"@, CodeLanguage::Lua, "Basic print."@, "print function."@, "print(\"Hello, world!\")"@),
        snippet_view("hello-bash"@, CodeLanguage::Bash, "Basic echo."@, "echo command."@, "echo \"Hello, world!\""@),
        snippet_view("hello-python"@, CodeLanguage::Python, "Basic print."@, "print function."@, "print(\"Hello, world!\")"@),
        snippet_view("hello-js"@, CodeLanguage::JavaScript, "Basic console log."@, "console.log."@, "console.log(\"Hello, world!\");"@),
        snippet_view("hello-ts"@, CodeLanguage::TypeScript, "Typed console log."@, "console.log."@, "console.log(\"Hello, world!\");"@),
        snippet_view("hello-java"@, CodeLanguage::Java, "Standard class structure."@, "System.out.println."@, "public class Main {\n    public static void main(String[] args) {\n        System.out.println(\"Hello, world!\");\n    }\n}"@),
        snippet_view("hello-csharp"@, CodeLanguage::CSharp, "Console application."@, "Console.WriteLine."@, "using System;\nclass Program {\n    static void Main() {\n        Console.WriteLine(\"Hello, world!\");\n    }\n}"@),
        snippet_view("hello-cpp"@, CodeLanguage::Cpp, "Standard iostream."@, "std::cout."@, "#include <iostream>\nint main() {\n    std::cout << \"Hello, world!\" << std::endl;\n    return 0;\n}"@),
        snippet_view("hello-c"@, CodeLanguage::C, "Standard stdio."@, "printf."@, "#include <stdio.h>\nint main() {\n    printf(\"Hello, world!\\n\");\n    return 0;\n}"@),
        snippet_view("hello-go"@, CodeLanguage::Go, "Basic fmt print."@, "fmt.Println."@, "package main\nimport \"fmt\"\nfunc main() {\n    fmt.Println(\"Hello, world!\")\n}"@),
        snippet_view("hello-sql"@, CodeLanguage::Sql, "Simple select."@, "SELECT statement."@, "SELECT 'Hello, world!';"@),
        snippet_view("hello-html"@, CodeLanguage::Html, "Basic tag."@, "h1 tag."@, "<h1>Hello, world!</h1>"@),
        snippet_view("hello-css"@, CodeLanguage::Css, "Pseudo-element content."@, "content property."@, "body::after {\n    content: \"Hello, world!\";\n}"@),
        snippet_view("hello-sass"@, CodeLanguage::Sass, "Pseudo-element content."@, "content property."@, "body::after\n    content: \"Hello, world!\""@),
        snippet_view("hello-scss"@, CodeLanguage::Scss, "Pseudo-element content."@, "content property."@, "body::after {\n    content: \"Hello, world!\";\n}"@),
        snippet_view("hello-r"@, CodeLanguage::R, "Cat function."@, "cat function."@, "cat(\"Hello, world!\\n\")"@),
        snippet_view("hello-kotlin"@, CodeLanguage::Kotlin, "Kotlin main."@, "println function."@, "fun main() {\n    println(\"Hello, world!\")\n}"@),
        snippet_view("hello-asm"@, CodeLanguage::Asm, "x86_64 minimal."@, "syscall write."@, "section .data\n    msg db 'Hello, world!', 0xa\nsection .text\n    global _start\n_start:\n    mov eax, 1\n    mov edi, 1\n    mov rsi, msg\n    mov edx, 14\n    syscall\n    mov eax, 60\n    xor edi, edi\n    syscall"@),
        snippet_view("subgrid-autopsy-core"@, CodeLanguage::Rust, "High-performance systems ledger scanner. Performs raw kernel memory maps and root filesystem auditing without triggering standard userspace hooks."@, "fn audit_system_nodes(target_path: &Path) -> Result<SystemManifest, AutopsyError>;\n\n• Returns fully serialized system telemetry maps.\n• Throws AutopsyError::MemoryLeak if memory footprint constraints break."@, "use std::fs;\nuse std::path::Path;\n\nfn main() {\n    println!(\"🚀 Initializing subgrid-autopsy core engine...\");\n    let target = Path::new(\"/var/log\");\n    match audit_system_nodes(target) {\n        Ok(manifest) => println!(\"Audit Verified: {} segments mapped.\", manifest.len()),\n        Err(e) => eprintln!(\"CRITICAL SEGFAULT: {:?}\", e),\n    }\n}"@),
        snippet_view("subgrid-hud-render"@, CodeLanguage::Lua, "High-frequency dynamic interface telemetry loop.\nUpdates terminal borders, workspaces, and pipeline statuses using raw text configurations."@, "subgrid.render_frame(hud_object, buffer_ptr)\n\n• hud_object: Native layout configuration table.\n• buffer_ptr: Direct terminal frame index memory pointer."@, "local hud = require(\"subgrid.core\")\n\nfunction _render_hud_loop()\n    local layout = hud.get_active_layout()\n    layout.border_color = \"#ff007f\"\n    layout.glow_radius = 12\n    \n    -- Direct rendering draw invocation\n    hud.render_frame(layout, 0x7FFF00)\nend"@),
        snippet_view("subgrid-hud-audio"@, CodeLanguage::Lua, "Terminal audio engine hooks.\nFeeds real-time VU-meter data directly down layout buffers to provide interactive decibel graphs."@, "subgrid.get_audio_stream_db()\n\n• Returns an integer scale value ranging from -60 to 0."@, "local audio = require(\"subgrid.audio\")\n\nfunction get_vu_bar()\n    local db = audio.get_audio_stream_db()\n    if db > -10 then\n        return \"[=== CRITICAL HIGHS ===]\"\n    else\n        return \"[=== NORMAL OPERATION ===]\"\n    end\nend"@),
        snippet_view("subgrid-flush-pipeline"@, CodeLanguage::Bash, "Low-overhead memory flush scripts.\nStrips down ghost processes, broken child nodes, and orphaned Docker sockets inside production rings."@, "./flush.sh --hard-reset [--verbose]\n\n• Clears Linux kernel cache allocations.\n• Forcibly drops isolated docker bridge loops."@, "#!/usr/bin/env bash\nset -euo pipefail\n\necho \"⚡ Commencing hard memory architecture sweep...\"\nsudo sync && echo 3 |\nsudo tee /proc/sys/vm/drop_caches\n\n# Purge dead virtualization sockets\ndocker network prune --force\necho \"✅ System pipelines cleared completely.\""@),
    ]
}

/// Builds the playground's starting snippet vault.
pub fn starter_snippet_list() -> (v: Vec<CodeSnippet>)
    ensures
        snippet_views(v@) == starter_snippets(),
{
    let mut v: Vec<CodeSnippet> = Vec::new();
    v.push(CodeSnippet::new("hello-rust", CodeLanguage::Rust, "Basic console print.", "println! macro.", "fn main() {\n    println!(\"Hello, world!\");\n}"));
    v.push(CodeSnippet::new("hello-lua", CodeLanguage::Lua, "Basic print.", "print function.", "print(\"Hello, world!\")"));
    v.push(CodeSnippet::new("hello-bash", CodeLanguage::Bash, "Basic echo.", "echo command.", "echo \"Hello, world!\""));
    v.push(CodeSnippet::new("hello-python", CodeLanguage::Python, "Basic print.", "print function.", "print(\"Hello, world!\")"));
    v.push(CodeSnippet::new("hello-js", CodeLanguage::JavaScript, "Basic console log.", "console.log.", "console.log(\"Hello, world!\");"));
    v.push(CodeSnippet::new("hello-ts", CodeLanguage::TypeScript, "Typed console log.", "console.log.", "console.log(\"Hello, world!\");"));
    v.push(CodeSnippet::new("hello-java", CodeLanguage::Java, "Standard class structure.", "System.out.println.", "public class Main {\n    public static void main(String[] args) {\n        System.out.println(\"Hello, world!\");\n    }\n}"));
    v.push(CodeSnippet::new("hello-csharp", CodeLanguage::CSharp, "Console application.", "Console.WriteLine.", "using System;\nclass Program {\n    static void Main() {\n        Console.WriteLine(\"Hello, world!\");\n    }\n}"));
    v.push(CodeSnippet::new("hello-cpp", CodeLanguage::Cpp, "Standard iostream.", "std::cout.", "#include <iostream>\nint main() {\n    std::cout << \"Hello, world!\" << std::endl;\n    return 0;\n}"));
    v.push(CodeSnippet::new("hello-c", CodeLanguage::C, "Standard stdio.", "printf.", "#include <stdio.h>\nint main() {\n    printf(\"Hello, world!\\n\");\n    return 0;\n}"));
    v.push(CodeSnippet::new("hello-go", CodeLanguage::Go, "Basic fmt print.", "fmt.Println.", "package main\nimport \"fmt\"\nfunc main() {\n    fmt.Println(\"Hello, world!\")\n}"));
    v.push(CodeSnippet::new("hello-sql", CodeLanguage::Sql, "Simple select.", "SELECT statement.", "SELECT 'Hello, world!';"));
    v.push(CodeSnippet::new("hello-html", CodeLanguage::Html, "Basic tag.", "h1 tag.", "<h1>Hello, world!</h1>"));
    v.push(CodeSnippet::new("hello-css", CodeLanguage::Css, "Pseudo-element content.", "content property.", "body::after {\n    content: \"Hello, world!\";\n}"));
    v.push(CodeSnippet::new("hello-sass", CodeLanguage::Sass, "Pseudo-element content.", "content property.", "body::after\n    content: \"Hello, world!\""));
    v.push(CodeSnippet::new("hello-scss", CodeLanguage::Scss, "Pseudo-element content.", "content property.", "body::after {\n    content: \"Hello, world!\";\n}"));
    v.push(CodeSnippet::new("hello-r", CodeLanguage::R, "Cat function.", "cat function.", "cat(\"Hello, world!\\n\")"));
    v.push(CodeSnippet::new("hello-kotlin", CodeLanguage::Kotlin, "Kotlin main.", "println function.", "fun main() {\n    println(\"Hello, world!\")\n}"));
    v.push(CodeSnippet::new("hello-asm", CodeLanguage::Asm, "x86_64 minimal.", "syscall write.", "section .data\n    msg db 'Hello, world!', 0xa\nsection .text\n    global _start\n_start:\n    mov eax, 1\n    mov edi, 1\n    mov rsi, msg\n    mov edx, 14\n    syscall\n    mov eax, 60\n    xor edi, edi\n    syscall"));
    v.push(CodeSnippet::new("subgrid-autopsy-core", CodeLanguage::Rust, "High-performance systems ledger scanner. Performs raw kernel memory maps and root filesystem auditing without triggering standard userspace hooks.", "fn audit_system_nodes(target_path: &Path) -> Result<SystemManifest, AutopsyError>;\n\n• Returns fully serialized system telemetry maps.\n• Throws AutopsyError::MemoryLeak if memory footprint constraints break.", "use std::fs;\nuse std::path::Path;\n\nfn main() {\n    println!(\"🚀 Initializing subgrid-autopsy core engine...\");\n    let target = Path::new(\"/var/log\");\n    match audit_system_nodes(target) {\n        Ok(manifest) => println!(\"Audit Verified: {} segments mapped.\", manifest.len()),\n        Err(e) => eprintln!(\"CRITICAL SEGFAULT: {:?}\", e),\n    }\n}"));
    v.push(CodeSnippet::new("subgrid-hud-render", CodeLanguage::Lua, "High-frequency dynamic interface telemetry loop.\nUpdates terminal borders, workspaces, and pipeline statuses using raw text configurations.", "subgrid.render_frame(hud_object, buffer_ptr)\n\n• hud_object: Native layout configuration table.\n• buffer_ptr: Direct terminal frame index memory pointer.", "local hud = require(\"subgrid.core\")\n\nfunction _render_hud_loop()\n    local layout = hud.get_active_layout()\n    layout.border_color = \"#ff007f\"\n    layout.glow_radius = 12\n    \n    -- Direct rendering draw invocation\n    hud.render_frame(layout, 0x7FFF00)\nend"));
    v.push(CodeSnippet::new("subgrid-hud-audio", CodeLanguage::Lua, "Terminal audio engine hooks.\nFeeds real-time VU-meter data directly down layout buffers to provide interactive decibel graphs.", "subgrid.get_audio_stream_db()\n\n• Returns an integer scale value ranging from -60 to 0.", "local audio = require(\"subgrid.audio\")\n\nfunction get_vu_bar()\n    local db = audio.get_audio_stream_db()\n    if db > -10 then\n        return \"[=== CRITICAL HIGHS ===]\"\n    else\n        return \"[=== NORMAL OPERATION ===]\"\n    end\nend"));
    v.push(CodeSnippet::new("subgrid-flush-pipeline", CodeLanguage::Bash, "Low-overhead memory flush scripts.\nStrips down ghost processes, broken child nodes, and orphaned Docker sockets inside production rings.", "./flush.sh --hard-reset [--verbose]\n\n• Clears Linux kernel cache allocations.\n• Forcibly drops isolated docker bridge loops.", "#!/usr/bin/env bash\nset -euo pipefail\n\necho \"⚡ Commencing hard memory architecture sweep...\"\nsudo sync && echo 3 |\nsudo tee /proc/sys/vm/drop_caches\n\n# Purge dead virtualization sockets\ndocker network prune --force\necho \"✅ System pipelines cleared completely.\""));
    assert(snippet_views(v@) =~= starter_snippets());
    v
}

/// The asset explorer's snippet vault when it opens.
pub open spec fn explorer_snippets() -> Seq<SnippetView> {
    seq![
        snippet_view("arch-autopsy-core"@, CodeLanguage::Rust, "High-performance systems ledger scanner."@, "fn audit_system_nodes(target_path: &Path) -> Result<SystemManifest, AutopsyError>;"@, "use std::fs;\nfn main() { println!(\"🚀 Initializing...\"); }"@),
        snippet_view("hadal-hud-render"@, CodeLanguage::Lua, "High-frequency dynamic interface telemetry loop."@, "hadal.render_frame(hud_object, buffer_ptr)"@, "local hud = require(\"hadal.core\")\nhud.render_frame(layout, 0x7FFF00)"@),
    ]
}

/// Builds the asset explorer's starting snippet vault.
pub fn explorer_snippet_list() -> (v: Vec<CodeSnippet>)
    ensures
        snippet_views(v@) == explorer_snippets(),
{
    let mut v: Vec<CodeSnippet> = Vec::new();
    v.push(CodeSnippet::new("arch-autopsy-core", CodeLanguage::Rust, "High-performance systems ledger scanner.", "fn audit_system_nodes(target_path: &Path) -> Result<SystemManifest, AutopsyError>;", "use std::fs;\nfn main() { println!(\"🚀 Initializing...\"); }"));
    v.push(CodeSnippet::new("hadal-hud-render", CodeLanguage::Lua, "High-frequency dynamic interface telemetry loop.", "hadal.render_frame(hud_object, buffer_ptr)", "local hud = require(\"hadal.core\")\nhud.render_frame(layout, 0x7FFF00)"));
    assert(snippet_views(v@) =~= explorer_snippets());
    v
}
} // verus!
