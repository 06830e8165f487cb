use komo::domain::skill::{Skill, SOURCE_REVIEWER};

#[test]
fn parses_frontmatter_and_body() {
    let doc = "---\nname: summarize-file\ndescription: \"Summarize a file\"\n---\n\nStep 1. Read it.\nStep 2. Summarize.\n";
    let skill = Skill::parse(doc).unwrap();
    assert_eq!(skill.name, "summarize-file");
    assert_eq!(skill.description, "Summarize a file");
    assert!(skill.instructions.starts_with("Step 1."));
    assert!(skill.instructions.contains("Step 2."));
}

#[test]
fn rejects_document_without_frontmatter() {
    assert!(Skill::parse("no frontmatter here").is_none());
}

#[test]
fn a_skill_needs_a_name() {
    assert!(Skill::parse("---\ndescription: nameless\n---\nbody").is_none());
}

#[test]
fn a_parsed_skill_is_neither_protected_nor_disabled() {
    let skill = Skill::parse("\n---\nname: 'x'\nprotected: true\n----\n\n body \n").unwrap();
    assert_eq!(skill.name, "x");
    assert_eq!(skill.description, "");
    assert_eq!(skill.instructions, "body");
    assert!(!skill.protected);
    assert!(!skill.disabled);
    assert_ne!(skill.source, SOURCE_REVIEWER);
}
