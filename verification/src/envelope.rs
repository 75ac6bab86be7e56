//! The uniform result envelope for boundary operations, and the trivial
//! greeting operation that uses it.

use vstd::prelude::*;

verus! {

/// Uniform result envelope: either a successful payload with an empty
/// message, or no payload with a non-empty, human-readable failure message.
pub struct Results<T> {
    pub success: bool,
    pub data: Option<T>,
    pub message: String,
}

impl<T> Results<T> {
    /// A successful envelope: carries the payload and an empty message.
    pub fn success(data: T) -> (r: Results<T>)
        ensures
            r.success,
            r.data == Some(data),
            r.message@.len() == 0,
    {
        Results { success: true, data: Some(data), message: String::new() }
    }

    /// A failure envelope: no payload, and the given message.
    pub fn failure(message: String) -> (r: Results<T>)
        ensures
            !r.success,
            r.data is None,
            r.message == message,
    {
        Results { success: false, data: None, message }
    }
}

/// Payload of the greeting operation.
pub struct Student {
    pub name: String,
    pub age: i32,
}

/// The greeting operation: always succeeds, echoing the name with a fixed age.
pub fn greet(name: String) -> (r: Results<Student>)
    ensures
        r.success,
        r.message@.len() == 0,
        r.data matches Some(s) && s.name == name && s.age == 18,
{
    Results::success(Student { name, age: 18 })
}

} // verus!
