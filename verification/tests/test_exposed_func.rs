use js_sandbox::exposed_func::{
    DefaultExposedFunction, SqlSelectExposedFunction, DEFAULT_FUNC_NAME, SQL_SELECT_NAME,
};

#[test]
fn default_function_is_registered_as_default_func() {
    assert_eq!(DefaultExposedFunction::name(), "default_func");
    assert_eq!(DEFAULT_FUNC_NAME, "default_func");
}

#[test]
fn sql_function_is_registered_as_sql_select() {
    assert_eq!(SqlSelectExposedFunction::name(), "sqlSelect");
    assert_eq!(SQL_SELECT_NAME, "sqlSelect");
}

#[test]
fn registered_name_does_not_depend_on_the_value() {
    let _func = DefaultExposedFunction::new("something_else".to_string());
    assert_eq!(DefaultExposedFunction::name(), "default_func");
    let _func = SqlSelectExposedFunction::new("sql_select".to_string());
    assert_eq!(SqlSelectExposedFunction::name(), "sqlSelect");
}
