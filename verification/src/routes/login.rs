//! Interactive login.

use crate::authentication::UserId;
use crate::error::AuthError;
use crate::error::LoginError;
use crate::error::STATUS_SEE_OTHER;
use vstd::prelude::*;
use vstd::string::StringExecFns;

verus! {

/// The fields of the login form. The password is sealed by the caller as
/// soon as it is read.
pub struct FormData {
    pub username: String,
    pub password: crate::authentication::SecretText,
}

/// Where a login attempt sends the browser, and what it is told there.
#[derive(Debug, Clone, Copy, PartialEq, Eq)]
pub struct LoginRedirect {
    pub status: u16,
    pub location: &'static str,
    /// The message for the login page to show once.
    pub flash: Option<LoginError>,
}

/// The answer to a login attempt. A login that succeeds leads home. One
/// with invalid credentials leads back to the form with a message that
/// does not say what was wrong. Any other failure is an error and no
/// redirect.
pub fn login(outcome: Result<UserId, AuthError>) -> (answer: Result<LoginRedirect, LoginError>)
    ensures
        match outcome {
            Ok(_) => answer is Ok && answer->Ok_0.status == STATUS_SEE_OTHER
                && answer->Ok_0.location@ == "/"@ && answer->Ok_0.flash is None,
            Err(AuthError::InvalidCredentials) => answer is Ok && answer->Ok_0.status
                == STATUS_SEE_OTHER && answer->Ok_0.location@ == "/login"@ && answer->Ok_0.flash
                == Some(LoginError::AuthError),
            Err(AuthError::UnexpectedError) => answer == Err::<LoginRedirect, LoginError>(
                LoginError::UnexpectedError,
            ),
        },
{
    match outcome {
        Ok(_) => Ok(LoginRedirect { status: STATUS_SEE_OTHER, location: "/", flash: None }),
        Err(AuthError::InvalidCredentials) => Ok(
            LoginRedirect {
                status: STATUS_SEE_OTHER,
                location: "/login",
                flash: Some(LoginError::from_auth_error(AuthError::InvalidCredentials)),
            },
        ),
        Err(AuthError::UnexpectedError) => Err(LoginError::UnexpectedError),
    }
}

/// The login page up to the place of the flash message.
pub const LOGIN_PAGE_HEAD: &'static str = r#"<!DOCTYPE html>
            <html lang="en">
            <head>
                <meta charset="utf-8">
                <title>Login</title>
                <style>
                    body {
                        font-family: sans-serif;
                        margin: 0;
                        padding: 0;
                    }
                    .error {
                        color: red;
                    }
                    .container {
                        display: flex;
                        flex-direction: column;
                        justify-content: center;
                        align-items: center;
                        height: 100vh;
                    }
                    .form {
                        display: flex;
                        flex-direction: column;
                        justify-content: center;
                        align-items: center;
                        width: 300px;
                        height: 300px;
                        border: 1px solid #ccc;
                        border-radius: 5px;
                    }
                    .form input {
                        margin-bottom: 10px;
                        padding: 5px;
                        border: 1px solid #ccc;
                        border-radius: 5px;
                    }
                    .form input[type="submit"] {
                        width: 100px;
                        background-color: #ccc;
                        border: 1px solid #ccc;
                        border-radius: 5px;
                    }
                </style>
            </head>
            <body>
                <div class="container">
                    <form class="form" action="/login" method="post">
                        <h1>Login</h1>
                        "#;

/// The login page after the place of the flash message.
pub const LOGIN_PAGE_TAIL: &'static str = r#"
                        <input type="text" name="username" placeholder="Username" required>
                        <input type="password" name="password" placeholder="Password" required>
                        <input type="submit" value="Login">
                    </form>
                </div>
            </body>
            </html>
            "#;

/// The paragraph that shows a flash message on the login page; nothing
/// where there is no message.
pub open spec fn error_html_of(flash: Option<Seq<char>>) -> Seq<char> {
    match flash {
        Some(message) => "<p class=\"error\"><i>"@ + message + "</i></p>"@,
        None => Seq::empty(),
    }
}

pub fn error_html(flash: Option<&str>) -> (html: String)
    ensures
        html@ == error_html_of(
            match flash {
                Some(message) => Some(message@),
                None => None,
            },
        ),
{
    match flash {
        Some(message) => {
            let mut html = "<p class=\"error\"><i>".to_owned();
            html.append(message);
            html.append("</i></p>");
            html
        },
        None => String::new(),
    }
}

/// The login page, with the flash message if there is one.
pub fn login_form(flash: Option<&str>) -> (page: String)
    ensures
        page@ == LOGIN_PAGE_HEAD@ + error_html_of(
            match flash {
                Some(message) => Some(message@),
                None => None,
            },
        ) + LOGIN_PAGE_TAIL@,
{
    let mut page = LOGIN_PAGE_HEAD.to_owned();
    let error = error_html(flash);
    page.append(error.as_str());
    page.append(LOGIN_PAGE_TAIL);
    page
}

} // verus!
