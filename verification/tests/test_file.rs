use js_sandbox::exposed_func::{DefaultExposedFunction, SqlSelectExposedFunction};

#[test]
fn main_test() {
    let _runtime = tokio::runtime::Builder::new_current_thread()
        .enable_all()
        .build()
        .unwrap();

    let _func1 = DefaultExposedFunction::new("default_func".to_string());

    let _func2 = SqlSelectExposedFunction::new("sql_select".to_string());
}
