use mdmg::error::MdmgError;
use mdmg::template::{env_lookup, render, MdmgCtx, Template};

#[test]
fn render_returning_the_piyopoyo() {
    assert_eq!(
        render(Template::new("PIYOPIYP"), &Default::default(), &vec![]).unwrap(),
        "PIYOPIYP"
    )
}

#[test]
fn render_returning_the_himanoa() {
    assert_eq!(
        render(Template::new("{{identify}}"), &MdmgCtx::new("himanoa"), &vec![]).unwrap(),
        "himanoa"
    )
}

#[test]
fn render_returning_the_variable() {
    assert_eq!(
        render(Template::new("{{identify}}"), &MdmgCtx::new("himanoa"), &vec![]).unwrap(),
        "himanoa"
    )
}

#[test]
fn render_returning_the_foo() {
    let env = vec![("MDMG_TEST_VALUE1".to_string(), "FOO".to_string())];
    let actual = render(
        Template::new("{{ env \"MDMG_TEST_VALUE1\"}}"),
        &MdmgCtx::new("himanoa"),
        &env,
    );
    assert_eq!(actual.unwrap(), "FOO")
}

#[test]
fn render_returning_the_foo_adapter() {
    let env = vec![("MDMG_TEST_VALUE2".to_string(), "FooAdapter".to_string())];
    let actual = render(
        Template::new("{{ snake_case (env \"MDMG_TEST_VALUE2\")}}"),
        &MdmgCtx::new("himanoa"),
        &env,
    );
    assert_eq!(actual.unwrap(), "foo_adapter")
}

#[test]
fn render_returning_helper() {
    assert_eq!(
        render(
            Template::new("{{pascal_case identify}} {{camel_case identify}} {{kebab_case identify}} {{ snake_case identify }}"),
            &MdmgCtx::new("exampleAccountRegister"),
            &vec![],
        )
        .unwrap(),
        "ExampleAccountRegister exampleAccountRegister example-account-register example_account_register"
    )
}

#[test]
fn render_pascal_and_snake_case_helpers() {
    assert_eq!(
        render(
            Template::new("{{pascal_case identify}} {{snake_case identify}}"),
            &MdmgCtx::new("exampleAccount"),
            &vec![],
        )
        .unwrap(),
        "ExampleAccount example_account"
    )
}

#[test]
fn render_fails_on_a_missing_environment_variable() {
    let actual = render(
        Template::new("{{ env \"MDMG_TEST_MISSING\"}}"),
        &MdmgCtx::new("himanoa"),
        &vec![],
    );
    assert!(matches!(
        actual,
        Err(MdmgError::TempalteRenderError { reason: _ })
    ));
}

#[test]
fn render_fails_on_invalid_template_syntax() {
    let actual = render(
        Template::new("{{#if identify}}never closed"),
        &MdmgCtx::new("himanoa"),
        &vec![],
    );
    assert!(matches!(
        actual,
        Err(MdmgError::TempalteRenderError { reason: _ })
    ));
}

#[test]
fn env_lookup_takes_the_first_match() {
    let env = vec![
        ("A".to_string(), "one".to_string()),
        ("B".to_string(), "two".to_string()),
        ("A".to_string(), "three".to_string()),
    ];
    assert_eq!(env_lookup(&env, "A"), Some("one".to_string()));
    assert_eq!(env_lookup(&env, "B"), Some("two".to_string()));
    assert_eq!(env_lookup(&env, "C"), None);
    assert_eq!(env_lookup(&vec![], "A"), None);
}
