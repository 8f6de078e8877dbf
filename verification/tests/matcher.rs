use tunacode_execpolicy::ArgMatcher;
use tunacode_execpolicy::ArgType;

fn all_matchers() -> Vec<ArgMatcher> {
    vec![
        ArgMatcher::Literal("add".to_string()),
        ArgMatcher::Flag("-n".to_string()),
        ArgMatcher::ReadableFile,
        ArgMatcher::WriteableFile,
        ArgMatcher::UntypedArg,
        ArgMatcher::ReadableFiles,
        ArgMatcher::WriteableFiles,
        ArgMatcher::UntypedArgs,
    ]
}

#[test]
fn only_the_plural_matchers_are_vararg() {
    let expected = [false, false, false, false, false, true, true, true];
    for (matcher, vararg) in all_matchers().iter().zip(expected) {
        assert_eq!(vararg, matcher.is_vararg(), "{:?}", matcher);
    }
}

#[test]
fn each_matcher_assigns_its_type() {
    let expected = [
        ArgType::Literal,
        ArgType::Flag,
        ArgType::ReadableFile,
        ArgType::WriteableFile,
        ArgType::UntypedArg,
        ArgType::ReadableFile,
        ArgType::WriteableFile,
        ArgType::UntypedArg,
    ];
    for (matcher, arg_type) in all_matchers().iter().zip(expected) {
        assert_eq!(arg_type, matcher.arg_type(), "{:?}", matcher);
    }
}

#[test]
fn literal_matches_only_its_text() {
    let literal = ArgMatcher::Literal("add".to_string());
    assert_eq!(Some(ArgType::Literal), literal.evaluate(&"add".to_string()));
    for other in ["", "ad", "adds", "Add", "add ", "dda"] {
        assert_eq!(None, literal.evaluate(&other.to_string()));
    }
    let empty = ArgMatcher::Literal(String::new());
    assert_eq!(Some(ArgType::Literal), empty.evaluate(&String::new()));
    assert_eq!(None, empty.evaluate(&"x".to_string()));
}

#[test]
fn flag_matches_only_its_token() {
    let flag = ArgMatcher::Flag("-n".to_string());
    assert_eq!(Some(ArgType::Flag), flag.evaluate(&"-n".to_string()));
    for other in ["", "-", "n", "-N", "--n", "-n1", "-n "] {
        assert_eq!(None, flag.evaluate(&other.to_string()));
    }
}

#[test]
fn other_matchers_take_any_string() {
    let matchers = all_matchers();
    for matcher in &matchers[2..] {
        for value in ["", "x", "/etc/passwd", "-n", "add", "ünï©ødé"] {
            assert_eq!(Some(matcher.arg_type()), matcher.evaluate(&value.to_string()));
        }
    }
}

#[test]
fn clone_gives_an_equal_matcher() {
    for matcher in all_matchers() {
        assert_eq!(matcher, matcher.clone());
    }
    let literal = ArgMatcher::Literal("add".to_string());
    assert_ne!(literal.clone(), ArgMatcher::Flag("add".to_string()));
    assert_ne!(literal.clone(), ArgMatcher::Literal("ad".to_string()));
}
