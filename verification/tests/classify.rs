use schema_ast::{Identifier, RefIdentifier, Span};

fn here() -> Span {
    Span::new("main.schema", 10, 17)
}

fn owned(parts: &[&str]) -> Vec<String> {
    parts.iter().map(|part| part.to_string()).collect()
}

fn reference(path: &[&str], name: &str, full_name: &str) -> Identifier {
    Identifier::Ref(
        RefIdentifier {
            path: owned(path),
            name: name.to_string(),
            full_name: full_name.to_string(),
        },
        here(),
    )
}

#[test]
fn env_prefix_gives_an_environment_reference() {
    let id = Identifier::from(("env.FOO", here()));
    assert_eq!(id, Identifier::ENV("FOO".to_string(), here()));
    assert!(id.is_valid_value());
    assert!(!id.is_valid_type());
}

#[test]
fn bare_env_is_invalid() {
    let id = Identifier::from(("env", here()));
    assert_eq!(id, Identifier::Invalid("env".to_string(), here()));
    assert!(!id.is_valid_type());
    assert!(!id.is_valid_type_name());
    assert!(!id.is_valid_value());
}

#[test]
fn dotted_text_gives_a_reference() {
    let id = Identifier::from(("a.b.c", here()));
    assert_eq!(id, reference(&["a", "b"], "c", "a.b.c"));
    assert_eq!(id.to_string(), "a.b.c");
    assert_eq!(id.name(), "a.b.c");
}

#[test]
fn hyphenated_word_gives_a_string() {
    let id = Identifier::from(("foo-bar", here()));
    assert_eq!(id, Identifier::String("foo-bar".to_string(), here()));
    assert!(!id.is_valid_type());
    assert!(id.is_valid_value());
}

#[test]
fn env_prefix_comes_before_dots() {
    let id = Identifier::from(("env.a.b", here()));
    assert_eq!(id, Identifier::ENV("a.b".to_string(), here()));
    assert!(!matches!(id, Identifier::Ref(_, _)));
}

#[test]
fn env_prefix_comes_before_hyphens() {
    let id = Identifier::from(("env.a-b", here()));
    assert_eq!(id, Identifier::ENV("a-b".to_string(), here()));
}

#[test]
fn env_prefix_alone_gives_an_empty_name() {
    let id = Identifier::from(("env.", here()));
    assert_eq!(id, Identifier::ENV(String::new(), here()));
    assert_eq!(id.to_string(), "env.");
    assert_eq!(id.name(), "");
}

#[test]
fn plain_words_are_local_names() {
    for word in ["foo", "Foo_bar123", "x", "", "environment", "envx", "en", "ENV", "env_"] {
        let id = Identifier::from((word, here()));
        assert_eq!(id, Identifier::Local(word.to_string(), here()));
    }
}

#[test]
fn words_that_only_resemble_env_are_not_environment_references() {
    assert_eq!(
        Identifier::from(("env-x", here())),
        Identifier::String("env-x".to_string(), here())
    );
    assert_eq!(Identifier::from(("envx.y", here())), reference(&["envx"], "y", "envx.y"));
    assert_eq!(Identifier::from(("Env.x", here())), reference(&["Env"], "x", "Env.x"));
    assert_eq!(Identifier::from(("en.v", here())), reference(&["en"], "v", "en.v"));
}

#[test]
fn dots_come_before_hyphens() {
    let id = Identifier::from(("a-b.c-d", here()));
    assert_eq!(id, reference(&["a-b"], "c-d", "a-b.c-d"));
}

#[test]
fn two_components_give_one_path_segment() {
    let id = Identifier::from(("a.b", here()));
    assert_eq!(id, reference(&["a"], "b", "a.b"));
}

#[test]
fn trailing_dot_leaves_an_empty_name() {
    let id = Identifier::from(("a.b.", here()));
    assert_eq!(id, reference(&["a", "b"], "", "a.b."));
    assert!(id.is_valid_type());
    assert_eq!(id.to_string(), "a.b.");
}

#[test]
fn leading_dot_leaves_an_empty_segment() {
    let id = Identifier::from((".a", here()));
    assert_eq!(id, reference(&[""], "a", ".a"));
}

#[test]
fn lone_dots_give_empty_components() {
    assert_eq!(Identifier::from((".", here())), reference(&[""], "", "."));
    assert_eq!(Identifier::from(("..", here())), reference(&["", ""], "", ".."));
    assert_eq!(Identifier::from(("a..b", here())), reference(&["a", ""], "b", "a..b"));
}

#[test]
fn lone_hyphen_is_a_string() {
    assert_eq!(Identifier::from(("-", here())), Identifier::String("-".to_string(), here()));
}

#[test]
fn characters_outside_ascii_are_kept_whole() {
    assert_eq!(
        Identifier::from(("héllo.wörld.名前", here())),
        reference(&["héllo", "wörld"], "名前", "héllo.wörld.名前")
    );
    assert_eq!(
        Identifier::from(("env.ключ", here())),
        Identifier::ENV("ключ".to_string(), here())
    );
    assert_eq!(
        Identifier::from(("naïve-word", here())),
        Identifier::String("naïve-word".to_string(), here())
    );
    assert_eq!(
        Identifier::from(("größe", here())),
        Identifier::Local("größe".to_string(), here())
    );
}

#[test]
fn classify_and_from_agree() {
    for text in ["env.FOO", "env", "a.b.c", "foo-bar", "foo", "a.b.", ""] {
        assert_eq!(Identifier::classify(text, here()), Identifier::from((text, here())));
    }
}

#[test]
fn the_given_span_is_attached() {
    for text in ["env.FOO", "env", "a.b.c", "foo-bar", "foo"] {
        let span = Span::new("other.schema", 3, 4);
        let id = Identifier::from((text, span));
        assert_eq!(id.span(), &Span::new("other.schema", 3, 4));
        assert_eq!(id.span().file, "other.schema");
        assert_eq!(id.span().start, 3);
        assert_eq!(id.span().end, 4);
    }
}

#[test]
fn canonical_text_is_the_classified_text() {
    for text in [
        "env.FOO", "env.a.b", "env.", "env", "a.b.c", "a.b.", ".", "foo-bar", "-", "foo", "",
        "héllo.wörld",
    ] {
        assert_eq!(Identifier::from((text, here())).to_string(), text);
    }
}

#[test]
fn classifying_the_canonical_text_changes_nothing() {
    for text in [
        "a.b.c", "a.b.", "..", "foo-bar", "foo", "", "envx", "env-x", "env", "env.FOO", "env.a.b",
    ] {
        let first = Identifier::from((text, here()));
        let second = Identifier::from((first.to_string().as_str(), here()));
        assert_eq!(second, first);
    }
}

#[test]
fn reference_from_dotted_text() {
    let reference = RefIdentifier::from_dotted("one.two.three");
    assert_eq!(reference.path, owned(&["one", "two"]));
    assert_eq!(reference.name, "three");
    assert_eq!(reference.full_name, "one.two.three");
}

#[test]
fn reference_from_text_without_a_dot_has_no_path() {
    let reference = RefIdentifier::from_dotted("alone");
    assert_eq!(reference.path, Vec::<String>::new());
    assert_eq!(reference.name, "alone");
    assert_eq!(reference.full_name, "alone");
}

#[test]
fn reference_joins_back_to_its_full_name() {
    for text in ["a.b.c", "a.b.", ".a", ".", "a..b", "x.y"] {
        let reference = RefIdentifier::from_dotted(text);
        assert!(!reference.path.is_empty());
        let mut parts = reference.path.clone();
        parts.push(reference.name.clone());
        assert_eq!(parts.join("."), reference.full_name);
        assert_eq!(reference.full_name, text);
    }
}
