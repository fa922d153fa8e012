use vstd::prelude::*;

verus! {

/// A place in a GraphQL document.
#[derive(Debug, Clone, Copy, PartialEq, Eq, Structural)]
pub struct GraphQlErrorLocation {
    pub line: i32,
    pub column: i32,
}

/// One error of a GraphQL response.
#[derive(Debug, Clone)]
pub struct GraphQLError {
    pub message: String,
    pub locations: Vec<GraphQlErrorLocation>,
}

/// The errors of a GraphQL response.
#[derive(Debug, Clone)]
pub struct GraphQLErrors {
    pub errors: Vec<GraphQLError>,
}

impl GraphQLErrors {
    /// A response body with the single error `message`, located nowhere.
    pub fn new(message: &str) -> (errors: GraphQLErrors)
        ensures
            errors.errors@.len() == 1,
            errors.errors@[0].message@ == message@,
            errors.errors@[0].locations@.len() == 0,
    {
        let mut errors: Vec<GraphQLError> = Vec::new();
        errors.push(GraphQLError { message: message.to_string(), locations: Vec::new() });
        GraphQLErrors { errors }
    }
}

/// The errors the HTTP handlers answer with; each carries the body to send.
#[derive(Debug)]
pub enum HttpError<T> {
    ServiceUnavailable(T),
}

} // verus!
