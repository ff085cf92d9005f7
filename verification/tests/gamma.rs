use redshift_rs::colorramp::RampError;
use redshift_rs::error::{malformed, malformed_config, RedshiftError};
use redshift_rs::gamma::{
    add_randr_method, init_dummy, init_gamma_method, is_method_available, method_named,
    select_gamma_method, supported_gamma_methods, BackendError, DummyMethod, GammaMethod,
    GammaMethodProvider, MethodKind,
};
use redshift_rs::gamma_randr::RandrError;
use redshift_rs::text::{chars_of, join, same_text};
use redshift_rs::transition::ColorSetting;

#[test]
fn methods_are_known_by_name() {
    assert!(is_method_available("randr"));
    assert!(is_method_available("dummy"));
    assert!(!is_method_available(""));
    assert!(!is_method_available("Randr"));
    assert!(!is_method_available("dummy "));
    assert!(!is_method_available("rand"));
    assert!(!is_method_available("vidmode"));
    assert_eq!(method_named("randr"), Some(MethodKind::Randr));
    assert_eq!(method_named("dummy"), Some(MethodKind::Dummy));
    assert_eq!(method_named("drm"), None);
    assert_eq!(MethodKind::Randr.name(), "randr");
    assert_eq!(MethodKind::Dummy.name(), "dummy");
}

#[test]
fn table_of_methods() {
    assert_eq!(supported_gamma_methods(), vec![MethodKind::Randr, MethodKind::Dummy]);
    let mut methods = vec![MethodKind::Dummy];
    add_randr_method(&mut methods);
    assert_eq!(methods, vec![MethodKind::Dummy, MethodKind::Randr]);
}

#[test]
fn candidates_for_a_request() {
    assert_eq!(init_gamma_method(Some("dummy")), vec![MethodKind::Dummy]);
    assert_eq!(init_gamma_method(Some("randr")), vec![MethodKind::Randr]);
    assert_eq!(init_gamma_method(None), vec![MethodKind::Randr]);
}

#[test]
fn first_method_that_started_is_used() {
    let candidates = vec![MethodKind::Randr, MethodKind::Dummy, MethodKind::Randr];
    assert_eq!(select_gamma_method(&candidates, &vec![true, true, true]), Ok(MethodKind::Randr));
    assert_eq!(select_gamma_method(&candidates, &vec![false, true, true]), Ok(MethodKind::Dummy));
    assert_eq!(select_gamma_method(&candidates, &vec![false, false, true]), Ok(MethodKind::Randr));
    assert_eq!(
        select_gamma_method(&candidates, &vec![false, false, false]),
        Err(RedshiftError::GammaMethodNotFound("None".to_owned()))
    );
    assert_eq!(
        select_gamma_method(&Vec::new(), &Vec::new()),
        Err(RedshiftError::GammaMethodNotFound("None".to_owned()))
    );
}

#[test]
fn dummy_method_always_succeeds() {
    let mut dummy = init_dummy();
    assert_eq!(dummy, DummyMethod);
    assert_eq!(dummy.start(), Ok(()));
    assert_eq!(dummy.set_temperature(&ColorSetting::neutral()), Ok(()));
    assert_eq!(dummy.set_temperature(&ColorSetting::new()), Ok(()));
    assert_eq!(dummy.restore(), Ok(()));
    let mut made = DummyMethod.init().ok().unwrap();
    assert_eq!(made.start(), Ok(()));
    assert_eq!(made.set_temperature(&ColorSetting::neutral()), Ok(()));
    assert_eq!(made.restore(), Ok(()));
}

#[test]
fn backend_errors_keep_their_cause() {
    let cause = RandrError::Setting(RampError::BrightnessNotPositive(0));
    assert_ne!(BackendError::BackendUnavailable(cause), BackendError::BackendWriteFailure(cause));
    assert_eq!(BackendError::BackendWriteFailure(cause), BackendError::BackendWriteFailure(cause));
}

#[test]
fn errors_are_shown_as_text() {
    assert_eq!(
        RedshiftError::MalformedArgument("gamma: x".to_owned()).message(),
        "malformed argument: gamma: x"
    );
    assert_eq!(
        RedshiftError::MalformedConfig("no section".to_owned()).message(),
        "malformed configuration: no section"
    );
    assert_eq!(
        RedshiftError::GammaMethodNotFound("vidmode".to_owned()).message(),
        "gamma method 'vidmode' not found"
    );
    assert_eq!(RedshiftError::MalformedArgument(String::new()).message(), "malformed argument: ");
    assert_eq!(RedshiftError::MalformedConfig(String::new()).description(), "redshift error");
}

#[test]
fn malformed_results() {
    assert_eq!(
        malformed::<i32>("a".to_owned()),
        Err(RedshiftError::MalformedArgument("a".to_owned()))
    );
    assert_eq!(
        malformed_config::<(i32, i32)>("b".to_owned()),
        Err(RedshiftError::MalformedConfig("b".to_owned()))
    );
}

#[test]
fn text_helpers() {
    assert!(same_text("", ""));
    assert!(same_text("dummy", "dummy"));
    assert!(!same_text("dummy", "dumm"));
    assert!(!same_text("dummy", "dummi"));
    assert!(same_text("gr\u{fc}n", "gr\u{fc}n"));
    assert!(!same_text("gr\u{fc}n", "grun"));
    assert_eq!(chars_of("a\u{fc}:"), vec!['a', '\u{fc}', ':']);
    assert_eq!(chars_of(""), Vec::<char>::new());
    assert_eq!(join("ab", "cd"), "abcd");
    assert_eq!(join("", ""), "");
}
