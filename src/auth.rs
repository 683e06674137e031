//! The pieces of the sign-in flow that are plain values: the callback's
//! query, the pages shown at its end, and the token storage form.

use vstd::prelude::*;

verus! {

/// The query of the OAuth callback.
#[derive(Debug)]
pub struct GitHubCallbackQuery {
    pub code: Option<String>,
    pub state: Option<String>,
    pub error: Option<String>,
    pub error_description: Option<String>,
}

/// A request to refresh a session.
#[derive(Debug)]
pub struct TokenRefreshRequest {
    pub refresh_token: String,
}

/// Why a token could not be stored or read back.
#[derive(Debug)]
pub enum TokenError {
    Unreadable,
}

/// The form in which a token is stored. No encryption key is configured, so
/// a token is stored as it is.
pub fn encrypt_token(token: &str) -> (r: Result<String, TokenError>)
    ensures
        r matches Ok(t) && t@ == token@,
{
    Ok(String::from_str(token))
}

/// A stored token, read back: the inverse of `encrypt_token`.
pub fn decrypt_token(encrypted_token: &str) -> (r: Result<String, TokenError>)
    ensures
        r matches Ok(t) && t@ == encrypted_token@,
{
    Ok(String::from_str(encrypted_token))
}

pub const SUCCESS_PAGE_HEAD: &'static str = "
<!DOCTYPE html>
<html>
<head>
    <title>GitHub MCP Server - Authentication Success</title>
    <style>
        body { font-family: Arial, sans-serif; max-width: 600px; margin: 50px auto; padding: 20px; }
        .success { color: #28a745; }
        .token { background: #f8f9fa; padding: 10px; border-radius: 5px; font-family: monospace; word-break: break-all; }
        .copy-btn { margin-top: 10px; padding: 5px 10px; background: #007bff; color: white; border: none; border-radius: 3px; cursor: pointer; }
    </style>
</head>
<body>
    <h1 class=\"success\">Authentication Successful!</h1>
    <p>Welcome, <strong>";

pub const SUCCESS_PAGE_MIDDLE: &'static str = "</strong>! Your GitHub account has been successfully connected to the MCP server.</p>
    
    <h3>Your Session Token:</h3>
    <div class=\"token\" id=\"token\">";

pub const SUCCESS_PAGE_TAIL: &'static str = "</div>
    <button class=\"copy-btn\" onclick=\"copyToken()\">Copy Token</button>
    
    <h3>Next Steps:</h3>
    <ol>
        <li>Copy the token above</li>
        <li>Configure your MCP client with this token</li>
        <li>Start using the GitHub workflow commands: <code>push</code>, <code>scan tasks</code>, <code>merge</code></li>
    </ol>
    
    <p><em>This token will expire in 24 hours. You can refresh it using the MCP server.</em></p>
    
    <script>
        function copyToken() {
            const token = document.getElementById('token').textContent;
            navigator.clipboard.writeText(token).then(() => {
                alert('Token copied to clipboard!');
            });
        }
    </script>
</body>
</html>
        ";

pub const ERROR_PAGE_HEAD: &'static str = "
<!DOCTYPE html>
<html>
<head>
    <title>GitHub MCP Server - Authentication Error</title>
    <style>
        body { font-family: Arial, sans-serif; max-width: 600px; margin: 50px auto; padding: 20px; }
        .error { color: #dc3545; }
    </style>
</head>
<body>
    <h1 class=\"error\">Authentication Failed</h1>
    <p><strong>Error:</strong> ";

pub const ERROR_PAGE_MIDDLE: &'static str = "</p>
    <p><strong>Description:</strong> ";

pub const ERROR_PAGE_TAIL: &'static str = "</p>
    
    <p><a href=\"/auth/github\">Try again</a></p>
</body>
</html>
        ";

/// The page shown after a successful sign-in: the login and the session
/// token, set into the page's template.
pub fn create_success_page(username: &str, jwt_token: &str) -> (r: String)
    ensures
        r@ == SUCCESS_PAGE_HEAD@ + username@ + SUCCESS_PAGE_MIDDLE@ + jwt_token@ + SUCCESS_PAGE_TAIL@,
{
    let mut page = String::from_str(SUCCESS_PAGE_HEAD);
    page.append(username);
    page.append(SUCCESS_PAGE_MIDDLE);
    page.append(jwt_token);
    page.append(SUCCESS_PAGE_TAIL);
    page
}

/// The page shown after a failed sign-in: the error and its description, set
/// into the page's template.
pub fn create_error_page(error: &str, description: &str) -> (r: String)
    ensures
        r@ == ERROR_PAGE_HEAD@ + error@ + ERROR_PAGE_MIDDLE@ + description@ + ERROR_PAGE_TAIL@,
{
    let mut page = String::from_str(ERROR_PAGE_HEAD);
    page.append(error);
    page.append(ERROR_PAGE_MIDDLE);
    page.append(description);
    page.append(ERROR_PAGE_TAIL);
    page
}

} // verus!
