use vstd::prelude::*;
use vstd::string::StringExecFns;

verus! {

/// A greeting for the caller who sent a name.
pub struct Greeting {
    pub name: String,
    pub greeting: String,
}

/// Greets the given name.
pub fn hello(name: &str) -> (g: Greeting)
    ensures
        g.name@ == name@,
        g.greeting@ == "Hello "@ + name@ + "!"@,
{
    let mut greeting = String::from_str("Hello ");
    greeting.append(name);
    greeting.append("!");
    Greeting { name: name.to_owned(), greeting }
}

} // verus!
