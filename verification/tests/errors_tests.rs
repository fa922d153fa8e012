use thermostat_config::errors::GraphQLErrors;

#[test]
fn graphql_errors_hold_one_message() {
    let errors = GraphQLErrors::new("Invalid API key");
    assert_eq!(errors.errors.len(), 1);
    assert_eq!(errors.errors[0].message, "Invalid API key");
    assert!(errors.errors[0].locations.is_empty());
}

