use subgrid::language::CodeLanguage;
use subgrid::snippet::{explorer_snippet_list, starter_snippet_list};

const ALL: [CodeLanguage; 19] = [
    CodeLanguage::Rust, CodeLanguage::Lua, CodeLanguage::Bash, CodeLanguage::Python,
    CodeLanguage::JavaScript, CodeLanguage::TypeScript, CodeLanguage::Java, CodeLanguage::CSharp,
    CodeLanguage::Cpp, CodeLanguage::C, CodeLanguage::Go, CodeLanguage::Sql, CodeLanguage::Html,
    CodeLanguage::Css, CodeLanguage::Sass, CodeLanguage::Scss, CodeLanguage::R, CodeLanguage::Kotlin,
    CodeLanguage::Asm,
];

#[test]
fn compiler_option_selects_its_language() {
    for l in ALL {
        assert_eq!(CodeLanguage::from_compiler_id(l.compiler_id()), l);
    }
    assert_eq!(CodeLanguage::from_compiler_id("python-3.12"), CodeLanguage::Python);
    assert_eq!(CodeLanguage::from_compiler_id("brainfuck"), CodeLanguage::Rust);
    assert_eq!(CodeLanguage::from_compiler_id(""), CodeLanguage::Rust);
}

#[test]
fn extensions() {
    assert_eq!(CodeLanguage::Rust.extension(), "rs");
    assert_eq!(CodeLanguage::Bash.extension(), "sh");
    assert_eq!(CodeLanguage::Kotlin.extension(), "kt");
    assert_eq!(CodeLanguage::CSharp.extension(), "cs");
    for a in ALL {
        for b in ALL {
            if a != b {
                assert_ne!(a.extension(), b.extension());
            }
        }
    }
}

#[test]
fn starter_collections() {
    let v = starter_snippet_list();
    assert_eq!(v.len(), 23);
    assert_eq!(v[0].name, "hello-rust");
    assert_eq!(v[0].source_code, "fn main() {\n    println!(\"Hello, world!\");\n}");
    assert_eq!(v[22].name, "subgrid-flush-pipeline");
    assert_eq!(v[22].lang, CodeLanguage::Bash);
    for l in ALL {
        assert!(v.iter().any(|s| s.lang == l));
    }
    let e = explorer_snippet_list();
    assert_eq!(e.len(), 2);
    assert_eq!(e[0].name, "arch-autopsy-core");
    assert_eq!(e[1].lang, CodeLanguage::Lua);
}
