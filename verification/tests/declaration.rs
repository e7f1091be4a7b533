use tigra::command::{check_option_inputs, declare_command, Command, HandlerRef};
use tigra::errors::DeclarationError;
use tigra::kind::{resolve, DeclaredKind, OptionKind};
use tigra::param::{parse_params, RawParam, RawType, CONTEXT_PARAMS};

fn handler(id: u64) -> HandlerRef {
    HandlerRef { id }
}

/// Two leading declarations standing for the implicit dispatch context:
/// their types are outside the supported set, which must not matter.
fn context_decls() -> Vec<RawParam> {
    vec![
        RawParam {
            name: Some("ctx".to_string()),
            ty: RawType::Reference(DeclaredKind::Unsupported),
            description: "invocation context".to_string(),
        },
        RawParam {
            name: None,
            ty: RawType::Plain(DeclaredKind::Unsupported),
            description: "raw payload".to_string(),
        },
    ]
}

fn decl(name: &str, ty: RawType) -> RawParam {
    RawParam {
        name: Some(name.to_string()),
        ty,
        description: format!("the {} option", name),
    }
}

#[test]
fn resolve_maps_every_supported_type() {
    assert_eq!(resolve(DeclaredKind::Text), Some(OptionKind::Str));
    assert_eq!(resolve(DeclaredKind::Integer), Some(OptionKind::Integer));
    assert_eq!(resolve(DeclaredKind::Boolean), Some(OptionKind::Boolean));
    assert_eq!(resolve(DeclaredKind::Decimal), Some(OptionKind::Number));
    assert_eq!(resolve(DeclaredKind::EntityReference), Some(OptionKind::User));
    assert_eq!(resolve(DeclaredKind::ChannelReference), Some(OptionKind::Channel));
    assert_eq!(resolve(DeclaredKind::Unsupported), None);
}

#[test]
fn unsupported_parameter_type_fails_declaration() {
    let mut decls = context_decls();
    decls.push(decl("amount", RawType::Plain(DeclaredKind::Integer)));
    decls.push(decl("weird", RawType::Plain(DeclaredKind::Unsupported)));
    let r = declare_command(
        "pay".to_string(),
        "sends an amount".to_string(),
        &decls,
        handler(1),
    );
    assert_eq!(r.unwrap_err(), DeclarationError::UnsupportedParameterType { index: 1 });
}

#[test]
fn unnamed_parameter_fails_declaration() {
    let mut decls = context_decls();
    decls.push(RawParam {
        name: None,
        ty: RawType::Plain(DeclaredKind::Text),
        description: "a nameless option".to_string(),
    });
    let r = declare_command(
        "greet".to_string(),
        "greets someone".to_string(),
        &decls,
        handler(1),
    );
    assert_eq!(r.unwrap_err(), DeclarationError::UnnamedParameter { index: 0 });
}

#[test]
fn name_presence_is_checked_before_type_support() {
    let mut decls = context_decls();
    decls.push(RawParam {
        name: None,
        ty: RawType::Plain(DeclaredKind::Unsupported),
        description: "neither named nor supported".to_string(),
    });
    let r = parse_params(&decls);
    assert_eq!(r.unwrap_err(), DeclarationError::UnnamedParameter { index: 0 });
}

#[test]
fn first_offending_declaration_decides_the_error() {
    let mut decls = context_decls();
    decls.push(decl("broken", RawType::Plain(DeclaredKind::Unsupported)));
    decls.push(RawParam {
        name: None,
        ty: RawType::Plain(DeclaredKind::Text),
        description: "later failure".to_string(),
    });
    let r = parse_params(&decls);
    assert_eq!(r.unwrap_err(), DeclarationError::UnsupportedParameterType { index: 0 });
}

#[test]
fn context_declarations_are_skipped_and_not_validated() {
    let mut decls = context_decls();
    decls.push(decl("who", RawType::Plain(DeclaredKind::Text)));
    let params = parse_params(&decls).unwrap();
    assert_eq!(params.len(), 1);
    assert_eq!(params[0].name, "who");
}

#[test]
fn wrappers_set_required_and_by_reference() {
    let mut decls = context_decls();
    decls.push(decl("a", RawType::Plain(DeclaredKind::Text)));
    decls.push(decl("b", RawType::Reference(DeclaredKind::EntityReference)));
    decls.push(decl("c", RawType::Optional(DeclaredKind::Integer)));
    decls.push(decl("d", RawType::OptionalReference(DeclaredKind::ChannelReference)));
    let params = parse_params(&decls).unwrap();
    assert_eq!(params.len(), 4);
    assert!(params[0].required && !params[0].by_reference);
    assert_eq!(params[0].kind, OptionKind::Str);
    assert!(params[1].required && params[1].by_reference);
    assert_eq!(params[1].kind, OptionKind::User);
    assert!(!params[2].required && !params[2].by_reference);
    assert_eq!(params[2].kind, OptionKind::Integer);
    assert!(!params[3].required && params[3].by_reference);
    assert_eq!(params[3].kind, OptionKind::Channel);
}

#[test]
fn empty_command_name_fails() {
    let r = Command::new("   ".to_string(), "a description".to_string(), handler(1));
    assert_eq!(r.unwrap_err(), DeclarationError::EmptyCommandName);
}

#[test]
fn empty_description_fails() {
    let r = Command::new("ping".to_string(), "".to_string(), handler(1));
    assert_eq!(r.unwrap_err(), DeclarationError::BadDescriptionLength { length: 0 });
}

#[test]
fn whitespace_description_fails_with_trimmed_length() {
    let r = Command::new("ping".to_string(), "     ".to_string(), handler(1));
    assert_eq!(r.unwrap_err(), DeclarationError::BadDescriptionLength { length: 0 });
}

#[test]
fn overlong_description_fails() {
    let long = "a".repeat(101);
    let r = Command::new("ping".to_string(), long, handler(1));
    assert_eq!(r.unwrap_err(), DeclarationError::BadDescriptionLength { length: 101 });
}

#[test]
fn description_length_boundaries_pass() {
    assert!(Command::new("ping".to_string(), "x".to_string(), handler(1)).is_ok());
    let exactly_100 = "a".repeat(100);
    assert!(Command::new("ping".to_string(), exactly_100, handler(1)).is_ok());
}

#[test]
fn description_is_measured_after_trimming() {
    // 120 characters in all, one once trimmed: must pass. Would fail if the
    // trimming stage handed its input back unchanged.
    let padded = format!("{}x{}", " ".repeat(60), " ".repeat(59));
    assert_eq!(padded.len(), 120);
    assert!(Command::new("ping".to_string(), padded, handler(1)).is_ok());
    // 104 characters in all, 101 once trimmed: must still fail.
    let padded_long = format!("  {}  ", "a".repeat(101).as_str());
    let r = Command::new("ping".to_string(), padded_long, handler(1));
    assert_eq!(r.unwrap_err(), DeclarationError::BadDescriptionLength { length: 101 });
}

#[test]
fn check_option_inputs_validates_name_then_description() {
    assert!(check_option_inputs("who", "the person to greet", 0).is_ok());
    assert_eq!(
        check_option_inputs("", "the person to greet", 3).unwrap_err(),
        DeclarationError::BadOptionName { index: 3, length: 0 },
    );
    let long_name = "n".repeat(33);
    assert_eq!(
        check_option_inputs(long_name.as_str(), "fine", 1).unwrap_err(),
        DeclarationError::BadOptionName { index: 1, length: 33 },
    );
    assert_eq!(
        check_option_inputs("who", "", 2).unwrap_err(),
        DeclarationError::BadOptionDescription { index: 2, length: 0 },
    );
    // name errors win over description errors
    assert_eq!(
        check_option_inputs("", "", 0).unwrap_err(),
        DeclarationError::BadOptionName { index: 0, length: 0 },
    );
}

#[test]
fn option_name_boundaries() {
    let n32 = "n".repeat(32);
    assert!(check_option_inputs(n32.as_str(), "fine", 0).is_ok());
    let mut decls = context_decls();
    decls.push(RawParam {
        name: Some("n".repeat(33)),
        ty: RawType::Plain(DeclaredKind::Text),
        description: "too long a name".to_string(),
    });
    assert_eq!(
        parse_params(&decls).unwrap_err(),
        DeclarationError::BadOptionName { index: 0, length: 33 },
    );
}

#[test]
fn bad_option_description_fails_declaration() {
    let mut decls = context_decls();
    decls.push(RawParam {
        name: Some("who".to_string()),
        ty: RawType::Plain(DeclaredKind::Text),
        description: " ".to_string(),
    });
    assert_eq!(
        parse_params(&decls).unwrap_err(),
        DeclarationError::BadOptionDescription { index: 0, length: 0 },
    );
}

#[test]
fn builder_appends_options_in_order() {
    let cmd = Command::new("pay".to_string(), "sends an amount".to_string(), handler(7))
        .unwrap()
        .add_option("to".to_string(), "the recipient".to_string(), OptionKind::User, true)
        .unwrap()
        .add_option("amount".to_string(), "how much".to_string(), OptionKind::Integer, true)
        .unwrap()
        .add_option("note".to_string(), "an optional note".to_string(), OptionKind::Str, false)
        .unwrap();
    assert_eq!(cmd.options.len(), 3);
    assert_eq!(cmd.options[0].name, "to");
    assert_eq!(cmd.options[0].kind, OptionKind::User);
    assert!(cmd.options[0].required);
    assert_eq!(cmd.options[1].name, "amount");
    assert_eq!(cmd.options[2].name, "note");
    assert!(!cmd.options[2].required);
    assert!(!cmd.options[2].by_reference);
}

#[test]
fn builder_rejects_bad_option_inputs() {
    let cmd = Command::new("pay".to_string(), "sends an amount".to_string(), handler(7)).unwrap();
    let r = cmd.add_option("".to_string(), "the recipient".to_string(), OptionKind::User, true);
    assert_eq!(r.unwrap_err(), DeclarationError::BadOptionName { index: 0, length: 0 });
}

#[test]
fn declared_schema_preserves_order_and_kinds() {
    let mut decls = context_decls();
    decls.push(decl("message", RawType::Plain(DeclaredKind::Text)));
    decls.push(decl("times", RawType::Optional(DeclaredKind::Integer)));
    let cmd = declare_command(
        "echo".to_string(),
        "repeats a message".to_string(),
        &decls,
        handler(9),
    )
    .unwrap();
    assert_eq!(cmd.name, "echo");
    assert_eq!(cmd.description, "repeats a message");
    assert_eq!(cmd.handler, handler(9));
    let kinds: Vec<OptionKind> = cmd.options.iter().map(|p| p.kind).collect();
    assert_eq!(kinds, vec![OptionKind::Str, OptionKind::Integer]);
    let required: Vec<bool> = cmd.options.iter().map(|p| p.required).collect();
    assert_eq!(required, vec![true, false]);
    assert_eq!(cmd.options[0].name, "message");
    assert_eq!(cmd.options[1].name, "times");
}

#[test]
fn context_params_is_two() {
    assert_eq!(CONTEXT_PARAMS, 2);
}
