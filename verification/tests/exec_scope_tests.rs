use casm_packager::exec_scope::{ExecutionScopes, PyValueType};

fn lookup(scope: &Vec<(String, PyValueType)>, name: &str) -> Option<PyValueType> {
    scope.iter().find(|e| e.0 == name).map(|e| e.1)
}

#[test]
fn initialize_execution_scopes() {
    let scopes = ExecutionScopes::new();

    assert_eq!(scopes, ExecutionScopes { exec_scopes: vec![Vec::new()] });
}

#[test]
fn get_local_variables_test() {
    let var_name = String::from("a");
    let var_value = PyValueType::BigInt(2);

    let scope = vec![(var_name, var_value)];

    let scopes = ExecutionScopes { exec_scopes: vec![scope] };

    assert_eq!(
        scopes.get_local_variables().unwrap(),
        &vec![(String::from("a"), PyValueType::BigInt(2))]
    );
}

#[test]
fn enter_new_scope_test() {
    let var_name = String::from("a");
    let var_value = PyValueType::BigInt(2);

    let new_scope = vec![(var_name, var_value)];

    let mut scopes = ExecutionScopes {
        exec_scopes: vec![vec![(String::from("b"), PyValueType::BigInt(1))]],
    };

    assert_eq!(
        scopes.get_local_variables().unwrap(),
        &vec![(String::from("b"), PyValueType::BigInt(1))]
    );

    scopes.enter_scope(new_scope);

    // check that variable `b` can't be accessed now
    assert!(lookup(scopes.get_local_variables().unwrap(), "b").is_none());

    assert_eq!(
        scopes.get_local_variables().unwrap(),
        &vec![(String::from("a"), PyValueType::BigInt(2))]
    );
}

#[test]
fn exit_scope_test() {
    let var_name = String::from("a");
    let var_value = PyValueType::BigInt(2);

    let new_scope = vec![(var_name, var_value)];

    // this initializes an empty main scope
    let mut scopes = ExecutionScopes::new();

    // enter one extra scope
    scopes.enter_scope(new_scope);

    assert_eq!(
        scopes.get_local_variables().unwrap(),
        &vec![(String::from("a"), PyValueType::BigInt(2))]
    );

    // exit the current scope
    let exit_scope_result = scopes.exit_scope();

    assert!(exit_scope_result.is_ok());

    // assert that we recovered the older scope
    assert_eq!(scopes.get_local_variables().unwrap(), &Vec::new());
}

#[test]
fn assign_local_variable_test() {
    let var_value = PyValueType::BigInt(2);

    let mut scopes = ExecutionScopes::new();

    scopes.assign_or_update_variable("a", var_value);

    assert_eq!(
        lookup(scopes.get_local_variables().unwrap(), "a").unwrap(),
        PyValueType::BigInt(2)
    );
}

#[test]
fn re_assign_local_variable_test() {
    let var_name = String::from("a");
    let var_value = PyValueType::BigInt(2);

    let scope = vec![(var_name, var_value)];

    let mut scopes = ExecutionScopes { exec_scopes: vec![scope] };

    scopes.assign_or_update_variable("a", PyValueType::BigInt(3));

    assert_eq!(
        lookup(scopes.get_local_variables().unwrap(), "a").unwrap(),
        PyValueType::BigInt(3)
    );
}

#[test]
fn delete_local_variable_test() {
    let var_name = String::from("a");
    let var_value = PyValueType::BigInt(2);

    let scope = vec![(var_name, var_value)];

    let mut scopes = ExecutionScopes { exec_scopes: vec![scope] };

    assert!(lookup(scopes.get_local_variables().unwrap(), "a").is_some());

    scopes.delete_variable("a");

    assert!(lookup(scopes.get_local_variables().unwrap(), "a").is_none());
}

#[test]
fn exit_main_scope_is_refused() {
    let mut scopes = ExecutionScopes::new();
    assert!(scopes.exit_scope().is_err());
}
