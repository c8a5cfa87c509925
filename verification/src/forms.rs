use vstd::prelude::*;

verus! {

/// The form fields of a subscription-creation request.
pub struct FormData {
    pub name: String,
    pub email: String,
}

/// The response body for a subscription-creation request: a greeting
/// naming the subscriber and the email address that was submitted.
pub fn subscribe(form: &FormData) -> (body: String)
    ensures
        body@ == "Hello "@ + form.name@ + ", email "@ + form.email@,
{
    let mut body = String::from_str("Hello ");
    body.append(form.name.as_str());
    body.append(", email ");
    body.append(form.email.as_str());
    proof {
        assert(body@ =~= "Hello "@ + form.name@ + ", email "@ + form.email@);
    }
    body
}

/// The response body for the greeting route: hello to whoever the path
/// names.
pub fn greet(name: &str) -> (body: String)
    ensures
        body@ == "Hello "@ + name@ + "!"@,
{
    let mut body = String::from_str("Hello ");
    body.append(name);
    body.append("!");
    proof {
        assert(body@ =~= "Hello "@ + name@ + "!"@);
    }
    body
}

} // verus!
