//! A greeting.

use vstd::prelude::*;
use vstd::string::StringExecFns;

verus! {

/// The parameters of the greeting.
#[derive(Debug)]
pub struct HelloParams {
    pub name: Option<String>,
}

/// Who is greeted where no name is given.
pub const DEFAULT_NAME: &'static str = "Frank";

pub open spec fn greeting_for(name: Option<Seq<char>>) -> Seq<char> {
    "Hello <strong>"@ + match name {
        Some(name) => name,
        None => DEFAULT_NAME@,
    } + "</strong>"@
}

/// The greeting, in HTML, for the name given or for the default one.
pub fn handler_hello(params: &HelloParams) -> (html: String)
    ensures
        html@ == greeting_for(
            match params.name {
                Some(name) => Some(name@),
                None => None,
            },
        ),
{
    let mut html = "Hello <strong>".to_owned();
    match &params.name {
        Some(name) => html.append(name.as_str()),
        None => html.append(DEFAULT_NAME),
    }
    html.append("</strong>");
    html
}

} // verus!
