//! The programming languages the playground knows: their file extensions and
//! the compiler options that select them.
use vstd::prelude::*;
use crate::text::same_text;

verus! {

/// A language of the code playground.
#[derive(Debug, Clone, Copy, PartialEq, Eq, Structural)]
pub enum CodeLanguage {
    Rust,
    Lua,
    Bash,
    Python,
    JavaScript,
    TypeScript,
    Java,
    CSharp,
    Cpp,
    C,
    Go,
    Sql,
    Html,
    Css,
    Sass,
    Scss,
    R,
    Kotlin,
    Asm,
}

impl CodeLanguage {
    /// The file extension a download of code in this language gets.
    pub open spec fn spec_extension(self) -> Seq<char> {
        match self {
            CodeLanguage::Rust => "rs"@,
            CodeLanguage::Lua => "lua"@,
            CodeLanguage::Bash => "sh"@,
            CodeLanguage::Python => "py"@,
            CodeLanguage::JavaScript => "js"@,
            CodeLanguage::TypeScript => "ts"@,
            CodeLanguage::Java => "java"@,
            CodeLanguage::CSharp => "cs"@,
            CodeLanguage::Cpp => "cpp"@,
            CodeLanguage::C => "c"@,
            CodeLanguage::Go => "go"@,
            CodeLanguage::Sql => "sql"@,
            CodeLanguage::Html => "html"@,
            CodeLanguage::Css => "css"@,
            CodeLanguage::Sass => "sass"@,
            CodeLanguage::Scss => "scss"@,
            CodeLanguage::R => "r"@,
            CodeLanguage::Kotlin => "kt"@,
            CodeLanguage::Asm => "asm"@,
        }
    }

    /// The value of the compiler option that selects this language.
    pub open spec fn spec_compiler_id(self) -> Seq<char> {
        match self {
            CodeLanguage::Rust => "rust-1.78"@,
            CodeLanguage::Lua => "lua-5.4"@,
            CodeLanguage::Bash => "bash-5.0"@,
            CodeLanguage::Python => "python-3.12"@,
            CodeLanguage::JavaScript => "js-es6"@,
            CodeLanguage::TypeScript => "ts-5.0"@,
            CodeLanguage::Java => "java-21"@,
            CodeLanguage::CSharp => "csharp-12"@,
            CodeLanguage::Cpp => "cpp-20"@,
            CodeLanguage::C => "c-17"@,
            CodeLanguage::Go => "go-1.22"@,
            CodeLanguage::Sql => "sql-ansi"@,
            CodeLanguage::Html => "html-5"@,
            CodeLanguage::Css => "css-3"@,
            CodeLanguage::Sass => "sass"@,
            CodeLanguage::Scss => "scss"@,
            CodeLanguage::R => "r-4.3"@,
            CodeLanguage::Kotlin => "kotlin-1.9"@,
            CodeLanguage::Asm => "asm-x86"@,
        }
    }

    /// The language a compiler option selects; an unknown option selects Rust.
    pub open spec fn spec_from_compiler_id(id: Seq<char>) -> CodeLanguage {
        if id == "rust-1.78"@ {
            CodeLanguage::Rust
        } else if id == "lua-5.4"@ {
            CodeLanguage::Lua
        } else if id == "bash-5.0"@ {
            CodeLanguage::Bash
        } else if id == "python-3.12"@ {
            CodeLanguage::Python
        } else if id == "js-es6"@ {
            CodeLanguage::JavaScript
        } else if id == "ts-5.0"@ {
            CodeLanguage::TypeScript
        } else if id == "java-21"@ {
            CodeLanguage::Java
        } else if id == "csharp-12"@ {
            CodeLanguage::CSharp
        } else if id == "cpp-20"@ {
            CodeLanguage::Cpp
        } else if id == "c-17"@ {
            CodeLanguage::C
        } else if id == "go-1.22"@ {
            CodeLanguage::Go
        } else if id == "sql-ansi"@ {
            CodeLanguage::Sql
        } else if id == "html-5"@ {
            CodeLanguage::Html
        } else if id == "css-3"@ {
            CodeLanguage::Css
        } else if id == "sass"@ {
            CodeLanguage::Sass
        } else if id == "scss"@ {
            CodeLanguage::Scss
        } else if id == "r-4.3"@ {
            CodeLanguage::R
        } else if id == "kotlin-1.9"@ {
            CodeLanguage::Kotlin
        } else if id == "asm-x86"@ {
            CodeLanguage::Asm
        } else {
            CodeLanguage::Rust
        }
    }

    /// The file extension for code in this language (`rs`, `lua`, ...).
    pub fn extension(&self) -> (ext: &'static str)
        ensures
            ext@ == self.spec_extension(),
    {
        match self {
            CodeLanguage::Rust => "rs",
            CodeLanguage::Lua => "lua",
            CodeLanguage::Bash => "sh",
            CodeLanguage::Python => "py",
            CodeLanguage::JavaScript => "js",
            CodeLanguage::TypeScript => "ts",
            CodeLanguage::Java => "java",
            CodeLanguage::CSharp => "cs",
            CodeLanguage::Cpp => "cpp",
            CodeLanguage::C => "c",
            CodeLanguage::Go => "go",
            CodeLanguage::Sql => "sql",
            CodeLanguage::Html => "html",
            CodeLanguage::Css => "css",
            CodeLanguage::Sass => "sass",
            CodeLanguage::Scss => "scss",
            CodeLanguage::R => "r",
            CodeLanguage::Kotlin => "kt",
            CodeLanguage::Asm => "asm",
        }
    }

    /// The compiler option value for this language (`rust-1.78`, `lua-5.4`, ...).
    pub fn compiler_id(&self) -> (id: &'static str)
        ensures
            id@ == self.spec_compiler_id(),
    {
        match self {
            CodeLanguage::Rust => "rust-1.78",
            CodeLanguage::Lua => "lua-5.4",
            CodeLanguage::Bash => "bash-5.0",
            CodeLanguage::Python => "python-3.12",
            CodeLanguage::JavaScript => "js-es6",
            CodeLanguage::TypeScript => "ts-5.0",
            CodeLanguage::Java => "java-21",
            CodeLanguage::CSharp => "csharp-12",
            CodeLanguage::Cpp => "cpp-20",
            CodeLanguage::C => "c-17",
            CodeLanguage::Go => "go-1.22",
            CodeLanguage::Sql => "sql-ansi",
            CodeLanguage::Html => "html-5",
            CodeLanguage::Css => "css-3",
            CodeLanguage::Sass => "sass",
            CodeLanguage::Scss => "scss",
            CodeLanguage::R => "r-4.3",
            CodeLanguage::Kotlin => "kotlin-1.9",
            CodeLanguage::Asm => "asm-x86",
        }
    }

    /// The language that the compiler option `id` selects; Rust for an unknown option.
    pub fn from_compiler_id(id: &str) -> (lang: CodeLanguage)
        ensures
            lang == CodeLanguage::spec_from_compiler_id(id@),
    {
        if same_text(id, "rust-1.78") {
            CodeLanguage::Rust
        } else if same_text(id, "lua-5.4") {
            CodeLanguage::Lua
        } else if same_text(id, "bash-5.0") {
            CodeLanguage::Bash
        } else if same_text(id, "python-3.12") {
            CodeLanguage::Python
        } else if same_text(id, "js-es6") {
            CodeLanguage::JavaScript
        } else if same_text(id, "ts-5.0") {
            CodeLanguage::TypeScript
        } else if same_text(id, "java-21") {
            CodeLanguage::Java
        } else if same_text(id, "csharp-12") {
            CodeLanguage::CSharp
        } else if same_text(id, "cpp-20") {
            CodeLanguage::Cpp
        } else if same_text(id, "c-17") {
            CodeLanguage::C
        } else if same_text(id, "go-1.22") {
            CodeLanguage::Go
        } else if same_text(id, "sql-ansi") {
            CodeLanguage::Sql
        } else if same_text(id, "html-5") {
            CodeLanguage::Html
        } else if same_text(id, "css-3") {
            CodeLanguage::Css
        } else if same_text(id, "sass") {
            CodeLanguage::Sass
        } else if same_text(id, "scss") {
            CodeLanguage::Scss
        } else if same_text(id, "r-4.3") {
            CodeLanguage::R
        } else if same_text(id, "kotlin-1.9") {
            CodeLanguage::Kotlin
        } else if same_text(id, "asm-x86") {
            CodeLanguage::Asm
        } else {
            CodeLanguage::Rust
        }
    }
}

/// Every language's compiler option selects that language again.
pub proof fn lemma_compiler_id_selects_language(lang: CodeLanguage)
    ensures
        CodeLanguage::spec_from_compiler_id(lang.spec_compiler_id()) == lang,
{
    reveal_strlit("rust-1.78");
    assert("rust-1.78"@.len() == 9);
    assert("rust-1.78"@[0] == 'r');
    assert("rust-1.78"@[1] == 'u');
    reveal_strlit("lua-5.4");
    assert("lua-5.4"@.len() == 7);
    assert("lua-5.4"@[0] == 'l');
    assert("lua-5.4"@[1] == 'u');
    reveal_strlit("bash-5.0");
    assert("bash-5.0"@.len() == 8);
    assert("bash-5.0"@[0] == 'b');
    assert("bash-5.0"@[1] == 'a');
    reveal_strlit("python-3.12");
    assert("python-3.12"@.len() == 11);
    assert("python-3.12"@[0] == 'p');
    assert("python-3.12"@[1] == 'y');
    reveal_strlit("js-es6");
    assert("js-es6"@.len() == 6);
    assert("js-es6"@[0] == 'j');
    assert("js-es6"@[1] == 's');
    reveal_strlit("ts-5.0");
    assert("ts-5.0"@.len() == 6);
    assert("ts-5.0"@[0] == 't');
    assert("ts-5.0"@[1] == 's');
    reveal_strlit("java-21");
    assert("java-21"@.len() == 7);
    assert("java-21"@[0] == 'j');
    assert("java-21"@[1] == 'a');
    reveal_strlit("csharp-12");
    assert("csharp-12"@.len() == 9);
    assert("csharp-12"@[0] == 'c');
    assert("csharp-12"@[1] == 's');
    reveal_strlit("cpp-20");
    assert("cpp-20"@.len() == 6);
    assert("cpp-20"@[0] == 'c');
    assert("cpp-20"@[1] == 'p');
    reveal_strlit("c-17");
    assert("c-17"@.len() == 4);
    assert("c-17"@[0] == 'c');
    assert("c-17"@[1] == '-');
    reveal_strlit("go-1.22");
    assert("go-1.22"@.len() == 7);
    assert("go-1.22"@[0] == 'g');
    assert("go-1.22"@[1] == 'o');
    reveal_strlit("sql-ansi");
    assert("sql-ansi"@.len() == 8);
    assert("sql-ansi"@[0] == 's');
    assert("sql-ansi"@[1] == 'q');
    reveal_strlit("html-5");
    assert("html-5"@.len() == 6);
    assert("html-5"@[0] == 'h');
    assert("html-5"@[1] == 't');
    reveal_strlit("css-3");
    assert("css-3"@.len() == 5);
    assert("css-3"@[0] == 'c');
    assert("css-3"@[1] == 's');
    reveal_strlit("sass");
    assert("sass"@.len() == 4);
    assert("sass"@[0] == 's');
    assert("sass"@[1] == 'a');
    reveal_strlit("scss");
    assert("scss"@.len() == 4);
    assert("scss"@[0] == 's');
    assert("scss"@[1] == 'c');
    reveal_strlit("r-4.3");
    assert("r-4.3"@.len() == 5);
    assert("r-4.3"@[0] == 'r');
    assert("r-4.3"@[1] == '-');
    reveal_strlit("kotlin-1.9");
    assert("kotlin-1.9"@.len() == 10);
    assert("kotlin-1.9"@[0] == 'k');
    assert("kotlin-1.9"@[1] == 'o');
    reveal_strlit("asm-x86");
    assert("asm-x86"@.len() == 7);
    assert("asm-x86"@[0] == 'a');
    assert("asm-x86"@[1] == 's');
}

/// No two languages share a file extension.
pub proof fn lemma_extensions_distinct(a: CodeLanguage, b: CodeLanguage)
    requires
        a != b,
    ensures
        a.spec_extension() != b.spec_extension(),
{
    reveal_strlit("rs");
    assert("rs"@.len() == 2);
    assert("rs"@[0] == 'r');
    assert("rs"@[1] == 's');
    reveal_strlit("lua");
    assert("lua"@.len() == 3);
    assert("lua"@[0] == 'l');
    assert("lua"@[1] == 'u');
    reveal_strlit("sh");
    assert("sh"@.len() == 2);
    assert("sh"@[0] == 's');
    assert("sh"@[1] == 'h');
    reveal_strlit("py");
    assert("py"@.len() == 2);
    assert("py"@[0] == 'p');
    assert("py"@[1] == 'y');
    reveal_strlit("js");
    assert("js"@.len() == 2);
    assert("js"@[0] == 'j');
    assert("js"@[1] == 's');
    reveal_strlit("ts");
    assert("ts"@.len() == 2);
    assert("ts"@[0] == 't');
    assert("ts"@[1] == 's');
    reveal_strlit("java");
    assert("java"@.len() == 4);
    assert("java"@[0] == 'j');
    assert("java"@[1] == 'a');
    reveal_strlit("cs");
    assert("cs"@.len() == 2);
    assert("cs"@[0] == 'c');
    assert("cs"@[1] == 's');
    reveal_strlit("cpp");
    assert("cpp"@.len() == 3);
    assert("cpp"@[0] == 'c');
    assert("cpp"@[1] == 'p');
    reveal_strlit("c");
    assert("c"@.len() == 1);
    assert("c"@[0] == 'c');
    reveal_strlit("go");
    assert("go"@.len() == 2);
    assert("go"@[0] == 'g');
    assert("go"@[1] == 'o');
    reveal_strlit("sql");
    assert("sql"@.len() == 3);
    assert("sql"@[0] == 's');
    assert("sql"@[1] == 'q');
    reveal_strlit("html");
    assert("html"@.len() == 4);
    assert("html"@[0] == 'h');
    assert("html"@[1] == 't');
    reveal_strlit("css");
    assert("css"@.len() == 3);
    assert("css"@[0] == 'c');
    assert("css"@[1] == 's');
    reveal_strlit("sass");
    assert("sass"@.len() == 4);
    assert("sass"@[0] == 's');
    assert("sass"@[1] == 'a');
    reveal_strlit("scss");
    assert("scss"@.len() == 4);
    assert("scss"@[0] == 's');
    assert("scss"@[1] == 'c');
    reveal_strlit("r");
    assert("r"@.len() == 1);
    assert("r"@[0] == 'r');
    reveal_strlit("kt");
    assert("kt"@.len() == 2);
    assert("kt"@[0] == 'k');
    assert("kt"@[1] == 't');
    reveal_strlit("asm");
    assert("asm"@.len() == 3);
    assert("asm"@[0] == 'a');
    assert("asm"@[1] == 's');
}

/// The compiler options of the playground's select, each with the language it
/// selects: `rust-1.78` Rust, `lua-5.4` Lua, ..., `c-17` C, `cpp-20` C++, ... .
pub proof fn lemma_compiler_option_table()
    ensures
        CodeLanguage::spec_from_compiler_id("rust-1.78"@) == CodeLanguage::Rust,
        CodeLanguage::spec_from_compiler_id("lua-5.4"@) == CodeLanguage::Lua,
        CodeLanguage::spec_from_compiler_id("bash-5.0"@) == CodeLanguage::Bash,
        CodeLanguage::spec_from_compiler_id("python-3.12"@) == CodeLanguage::Python,
        CodeLanguage::spec_from_compiler_id("js-es6"@) == CodeLanguage::JavaScript,
        CodeLanguage::spec_from_compiler_id("ts-5.0"@) == CodeLanguage::TypeScript,
        CodeLanguage::spec_from_compiler_id("java-21"@) == CodeLanguage::Java,
        CodeLanguage::spec_from_compiler_id("csharp-12"@) == CodeLanguage::CSharp,
        CodeLanguage::spec_from_compiler_id("cpp-20"@) == CodeLanguage::Cpp,
        CodeLanguage::spec_from_compiler_id("c-17"@) == CodeLanguage::C,
        CodeLanguage::spec_from_compiler_id("go-1.22"@) == CodeLanguage::Go,
        CodeLanguage::spec_from_compiler_id("sql-ansi"@) == CodeLanguage::Sql,
        CodeLanguage::spec_from_compiler_id("html-5"@) == CodeLanguage::Html,
        CodeLanguage::spec_from_compiler_id("css-3"@) == CodeLanguage::Css,
        CodeLanguage::spec_from_compiler_id("sass"@) == CodeLanguage::Sass,
        CodeLanguage::spec_from_compiler_id("scss"@) == CodeLanguage::Scss,
        CodeLanguage::spec_from_compiler_id("r-4.3"@) == CodeLanguage::R,
        CodeLanguage::spec_from_compiler_id("kotlin-1.9"@) == CodeLanguage::Kotlin,
        CodeLanguage::spec_from_compiler_id("asm-x86"@) == CodeLanguage::Asm,
        CodeLanguage::Rust.spec_compiler_id() == "rust-1.78"@,
        CodeLanguage::Lua.spec_compiler_id() == "lua-5.4"@,
        CodeLanguage::Bash.spec_compiler_id() == "bash-5.0"@,
        CodeLanguage::Python.spec_compiler_id() == "python-3.12"@,
        CodeLanguage::JavaScript.spec_compiler_id() == "js-es6"@,
        CodeLanguage::TypeScript.spec_compiler_id() == "ts-5.0"@,
        CodeLanguage::Java.spec_compiler_id() == "java-21"@,
        CodeLanguage::CSharp.spec_compiler_id() == "csharp-12"@,
        CodeLanguage::Cpp.spec_compiler_id() == "cpp-20"@,
        CodeLanguage::C.spec_compiler_id() == "c-17"@,
        CodeLanguage::Go.spec_compiler_id() == "go-1.22"@,
        CodeLanguage::Sql.spec_compiler_id() == "sql-ansi"@,
        CodeLanguage::Html.spec_compiler_id() == "html-5"@,
        CodeLanguage::Css.spec_compiler_id() == "css-3"@,
        CodeLanguage::Sass.spec_compiler_id() == "sass"@,
        CodeLanguage::Scss.spec_compiler_id() == "scss"@,
        CodeLanguage::R.spec_compiler_id() == "r-4.3"@,
        CodeLanguage::Kotlin.spec_compiler_id() == "kotlin-1.9"@,
        CodeLanguage::Asm.spec_compiler_id() == "asm-x86"@,
{
    reveal_strlit("rust-1.78");
    assert("rust-1.78"@.len() == 9);
    assert("rust-1.78"@[0] == 'r');
    assert("rust-1.78"@[1] == 'u');
    reveal_strlit("lua-5.4");
    assert("lua-5.4"@.len() == 7);
    assert("lua-5.4"@[0] == 'l');
    assert("lua-5.4"@[1] == 'u');
    reveal_strlit("bash-5.0");
    assert("bash-5.0"@.len() == 8);
    assert("bash-5.0"@[0] == 'b');
    assert("bash-5.0"@[1] == 'a');
    reveal_strlit("python-3.12");
    assert("python-3.12"@.len() == 11);
    assert("python-3.12"@[0] == 'p');
    assert("python-3.12"@[1] == 'y');
    reveal_strlit("js-es6");
    assert("js-es6"@.len() == 6);
    assert("js-es6"@[0] == 'j');
    assert("js-es6"@[1] == 's');
    reveal_strlit("ts-5.0");
    assert("ts-5.0"@.len() == 6);
    assert("ts-5.0"@[0] == 't');
    assert("ts-5.0"@[1] == 's');
    reveal_strlit("java-21");
    assert("java-21"@.len() == 7);
    assert("java-21"@[0] == 'j');
    assert("java-21"@[1] == 'a');
    reveal_strlit("csharp-12");
    assert("csharp-12"@.len() == 9);
    assert("csharp-12"@[0] == 'c');
    assert("csharp-12"@[1] == 's');
    reveal_strlit("cpp-20");
    assert("cpp-20"@.len() == 6);
    assert("cpp-20"@[0] == 'c');
    assert("cpp-20"@[1] == 'p');
    reveal_strlit("c-17");
    assert("c-17"@.len() == 4);
    assert("c-17"@[0] == 'c');
    assert("c-17"@[1] == '-');
    reveal_strlit("go-1.22");
    assert("go-1.22"@.len() == 7);
    assert("go-1.22"@[0] == 'g');
    assert("go-1.22"@[1] == 'o');
    reveal_strlit("sql-ansi");
    assert("sql-ansi"@.len() == 8);
    assert("sql-ansi"@[0] == 's');
    assert("sql-ansi"@[1] == 'q');
    reveal_strlit("html-5");
    assert("html-5"@.len() == 6);
    assert("html-5"@[0] == 'h');
    assert("html-5"@[1] == 't');
    reveal_strlit("css-3");
    assert("css-3"@.len() == 5);
    assert("css-3"@[0] == 'c');
    assert("css-3"@[1] == 's');
    reveal_strlit("sass");
    assert("sass"@.len() == 4);
    assert("sass"@[0] == 's');
    assert("sass"@[1] == 'a');
    reveal_strlit("scss");
    assert("scss"@.len() == 4);
    assert("scss"@[0] == 's');
    assert("scss"@[1] == 'c');
    reveal_strlit("r-4.3");
    assert("r-4.3"@.len() == 5);
    assert("r-4.3"@[0] == 'r');
    assert("r-4.3"@[1] == '-');
    reveal_strlit("kotlin-1.9");
    assert("kotlin-1.9"@.len() == 10);
    assert("kotlin-1.9"@[0] == 'k');
    assert("kotlin-1.9"@[1] == 'o');
    reveal_strlit("asm-x86");
    assert("asm-x86"@.len() == 7);
    assert("asm-x86"@[0] == 'a');
    assert("asm-x86"@[1] == 's');
}

/// A compiler option that is none of the listed ones selects Rust.
pub proof fn lemma_unknown_option_selects_rust(id: Seq<char>)
    requires
        id != "rust-1.78"@,
        id != "lua-5.4"@,
        id != "bash-5.0"@,
        id != "python-3.12"@,
        id != "js-es6"@,
        id != "ts-5.0"@,
        id != "java-21"@,
        id != "csharp-12"@,
        id != "cpp-20"@,
        id != "c-17"@,
        id != "go-1.22"@,
        id != "sql-ansi"@,
        id != "html-5"@,
        id != "css-3"@,
        id != "sass"@,
        id != "scss"@,
        id != "r-4.3"@,
        id != "kotlin-1.9"@,
        id != "asm-x86"@,
    ensures
        CodeLanguage::spec_from_compiler_id(id) == CodeLanguage::Rust,
{
}

/// The file extension of each language: `rs` for Rust, `java` for Java, `js`
/// for JavaScript, `kt` for Kotlin, ... .
pub proof fn lemma_extension_table()
    ensures
        CodeLanguage::Rust.spec_extension() == "rs"@,
        CodeLanguage::Lua.spec_extension() == "lua"@,
        CodeLanguage::Bash.spec_extension() == "sh"@,
        CodeLanguage::Python.spec_extension() == "py"@,
        CodeLanguage::JavaScript.spec_extension() == "js"@,
        CodeLanguage::TypeScript.spec_extension() == "ts"@,
        CodeLanguage::Java.spec_extension() == "java"@,
        CodeLanguage::CSharp.spec_extension() == "cs"@,
        CodeLanguage::Cpp.spec_extension() == "cpp"@,
        CodeLanguage::C.spec_extension() == "c"@,
        CodeLanguage::Go.spec_extension() == "go"@,
        CodeLanguage::Sql.spec_extension() == "sql"@,
        CodeLanguage::Html.spec_extension() == "html"@,
        CodeLanguage::Css.spec_extension() == "css"@,
        CodeLanguage::Sass.spec_extension() == "sass"@,
        CodeLanguage::Scss.spec_extension() == "scss"@,
        CodeLanguage::R.spec_extension() == "r"@,
        CodeLanguage::Kotlin.spec_extension() == "kt"@,
        CodeLanguage::Asm.spec_extension() == "asm"@,
{
}

} // verus!
