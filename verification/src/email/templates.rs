//! The transactional email messages: verification, password reset and
//! welcome, each in an HTML and a plain-text form whose exact text is
//! pinned by contract.

use vstd::prelude::*;
use vstd::string::*;

verus! {

/// The kinds of transactional email the service sends.
pub enum EmailTemplate {
    /// Email verification after registration.
    Verification { username: Option<String>, verification_link: String },
    /// Password reset request.
    PasswordReset { username: Option<String>, reset_link: String },
    /// Welcome email after verification.
    Welcome { username: Option<String> },
}

/// The view of an optional borrowed name.
pub open spec fn opt_str_view(u: Option<&str>) -> Option<Seq<char>> {
    match u {
        Some(s) => Some(s@),
        None => None,
    }
}

/// The view of an optional owned name.
pub open spec fn opt_string_view(u: Option<String>) -> Option<Seq<char>> {
    match u {
        Some(s) => Some(s@),
        None => None,
    }
}

/// The salutation: the player's name where one is known.
pub open spec fn spec_greeting(username: Option<Seq<char>>) -> Seq<char> {
    match username {
        Some(u) => "Hey "@ + u + ","@,
        None => "Hey there,"@,
    }
}

/// The welcome salutation: the player's name where one is known.
pub open spec fn spec_welcome_greeting(username: Option<Seq<char>>) -> Seq<char> {
    match username {
        Some(u) => "Welcome, "@ + u + "!"@,
        None => "Welcome, Warrior!"@,
    }
}

fn greeting_line(username: Option<&str>) -> (r: String)
    ensures
        r@ == spec_greeting(opt_str_view(username)),
{
    match username {
        Some(u) => {
            let mut out = "Hey ".to_owned();
            out.append(u);
            out.append(",");
            out
        },
        None => "Hey there,".to_owned(),
    }
}

fn welcome_greeting_line(username: Option<&str>) -> (r: String)
    ensures
        r@ == spec_welcome_greeting(opt_str_view(username)),
{
    match username {
        Some(u) => {
            let mut out = "Welcome, ".to_owned();
            out.append(u);
            out.append("!");
            out
        },
        None => "Welcome, Warrior!".to_owned(),
    }
}

/// The exact text of the verification html message.
pub open spec fn spec_verification_html(username: Option<Seq<char>>, link: Seq<char>) -> Seq<char> {
    "<!DOCTYPE html>\n<html>\n<head>\n    <meta charset=\"utf-8\">\n    <meta name=\"viewport\" content=\"width=device-width, initial-scale=1.0\">\n    <title>Verify your email</title>\n    <style>\n        body {\n            font-family: 'Segoe UI', Tahoma, Geneva, Verdana, sans-serif;\n            background: linear-gradient(135deg, #0f172a 0%, #1e293b 100%);\n            color: #e2e8f0;\n            margin: 0;\n            padding: 40px 20px;\n        }\n        .container {\n            max-width: 560px;\n            margin: 0 auto;\n            background: #1e293b;\n            border-radius: 12px;\n            border: 1px solid #334155;\n            overflow: hidden;\n        }\n        .header {\n            background: linear-gradient(135deg, #f59e0b 0%, #d97706 100%);\n            padding: 32px;\n            text-align: center;\n        }\n        .header h1 {\n            margin: 0;\n            color: #0f172a;\n            font-size: 28px;\n            font-weight: 700;\n            letter-spacing: 2px;\n        }\n        .content {\n            padding: 32px;\n        }\n        .greeting {\n            font-size: 18px;\n            margin-bottom: 16px;\n        }\n        .message {\n            color: #94a3b8;\n            line-height: 1.6;\n            margin-bottom: 24px;\n        }\n        .button {\n            display: inline-block;\n            background: linear-gradient(135deg, #22c55e 0%, #16a34a 100%);\n            color: #fff !important;\n            text-decoration: none;\n            padding: 14px 32px;\n            border-radius: 8px;\n            font-weight: 600;\n            font-size: 16px;\n        }\n        .button:hover {\n            background: linear-gradient(135deg, #16a34a 0%, #15803d 100%);\n        }\n        .footer {\n            padding: 24px 32px;\n            background: #0f172a;\n            text-align: center;\n            color: #64748b;\n            font-size: 12px;\n        }\n        .link-fallback {\n            color: #64748b;\n            font-size: 12px;\n            word-break: break-all;\n            margin-top: 16px;\n        }\n    </style>\n</head>\n<body>\n    <div class=\"container\">\n        <div class=\"header\">\n            <h1>\u{2694}\u{fe0f} CODE WARRIOR</h1>\n        </div>\n        <div class=\"content\">\n            <p class=\"greeting\">"@ + spec_greeting(username) + "</p>\n            <p class=\"message\">\n                Thanks for joining Code Warrior! Before you can start your journey to master C programming,\n                please verify your email address by clicking the button below.\n            </p>\n            <p style=\"text-align: center; margin: 32px 0;\">\n                <a href=\""@ + link + "\" class=\"button\">Verify Email</a>\n            </p>\n            <p class=\"message\">\n                This link will expire in 24 hours. If you didn't create an account, you can safely ignore this email.\n            </p>\n            <p class=\"link-fallback\">\n                If the button doesn't work, copy and paste this link into your browser:<br>\n                "@ + link + "\n            </p>\n        </div>\n        <div class=\"footer\">\n            <p>\u{a9} 2024 Code Warrior. Master C programming through adventure.</p>\n        </div>\n    </div>\n</body>\n</html>"@
}

/// The exact text of the verification text message.
pub open spec fn spec_verification_text(username: Option<Seq<char>>, link: Seq<char>) -> Seq<char> {
    "CODE WARRIOR - Verify Your Email\n\n"@ + spec_greeting(username) + "\n\nThanks for joining Code Warrior! Before you can start your journey to master C programming, please verify your email address by visiting the link below:\n\n"@ + link + "\n\nThis link will expire in 24 hours. If you didn't create an account, you can safely ignore this email.\n\n---\n\u{a9} 2024 Code Warrior. Master C programming through adventure."@
}

/// The exact text of the password reset html message.
pub open spec fn spec_password_reset_html(username: Option<Seq<char>>, link: Seq<char>) -> Seq<char> {
    "<!DOCTYPE html>\n<html>\n<head>\n    <meta charset=\"utf-8\">\n    <meta name=\"viewport\" content=\"width=device-width, initial-scale=1.0\">\n    <title>Reset your password</title>\n    <style>\n        body {\n            font-family: 'Segoe UI', Tahoma, Geneva, Verdana, sans-serif;\n            background: linear-gradient(135deg, #0f172a 0%, #1e293b 100%);\n            color: #e2e8f0;\n            margin: 0;\n            padding: 40px 20px;\n        }\n        .container {\n            max-width: 560px;\n            margin: 0 auto;\n            background: #1e293b;\n            border-radius: 12px;\n            border: 1px solid #334155;\n            overflow: hidden;\n        }\n        .header {\n            background: linear-gradient(135deg, #ef4444 0%, #dc2626 100%);\n            padding: 32px;\n            text-align: center;\n        }\n        .header h1 {\n            margin: 0;\n            color: #fff;\n            font-size: 28px;\n            font-weight: 700;\n            letter-spacing: 2px;\n        }\n        .content {\n            padding: 32px;\n        }\n        .greeting {\n            font-size: 18px;\n            margin-bottom: 16px;\n        }\n        .message {\n            color: #94a3b8;\n            line-height: 1.6;\n            margin-bottom: 24px;\n        }\n        .button {\n            display: inline-block;\n            background: linear-gradient(135deg, #f59e0b 0%, #d97706 100%);\n            color: #0f172a !important;\n            text-decoration: none;\n            padding: 14px 32px;\n            border-radius: 8px;\n            font-weight: 600;\n            font-size: 16px;\n        }\n        .footer {\n            padding: 24px 32px;\n            background: #0f172a;\n            text-align: center;\n            color: #64748b;\n            font-size: 12px;\n        }\n        .link-fallback {\n            color: #64748b;\n            font-size: 12px;\n            word-break: break-all;\n            margin-top: 16px;\n        }\n        .warning {\n            background: #451a03;\n            border: 1px solid #92400e;\n            border-radius: 8px;\n            padding: 12px 16px;\n            color: #fbbf24;\n            font-size: 13px;\n            margin-top: 24px;\n        }\n    </style>\n</head>\n<body>\n    <div class=\"container\">\n        <div class=\"header\">\n            <h1>\u{1f510} PASSWORD RESET</h1>\n        </div>\n        <div class=\"content\">\n            <p class=\"greeting\">"@ + spec_greeting(username) + "</p>\n            <p class=\"message\">\n                We received a request to reset your Code Warrior password. Click the button below to create a new password.\n            </p>\n            <p style=\"text-align: center; margin: 32px 0;\">\n                <a href=\""@ + link + "\" class=\"button\">Reset Password</a>\n            </p>\n            <p class=\"message\">\n                This link will expire in 1 hour for security reasons.\n            </p>\n            <div class=\"warning\">\n                \u{26a0}\u{fe0f} If you didn't request a password reset, please ignore this email. Your password will remain unchanged.\n            </div>\n            <p class=\"link-fallback\">\n                If the button doesn't work, copy and paste this link into your browser:<br>\n                "@ + link + "\n            </p>\n        </div>\n        <div class=\"footer\">\n            <p>\u{a9} 2024 Code Warrior. Master C programming through adventure.</p>\n        </div>\n    </div>\n</body>\n</html>"@
}

/// The exact text of the password reset text message.
pub open spec fn spec_password_reset_text(username: Option<Seq<char>>, link: Seq<char>) -> Seq<char> {
    "CODE WARRIOR - Password Reset\n\n"@ + spec_greeting(username) + "\n\nWe received a request to reset your Code Warrior password. Visit the link below to create a new password:\n\n"@ + link + "\n\nThis link will expire in 1 hour for security reasons.\n\n\u{26a0}\u{fe0f} If you didn't request a password reset, please ignore this email. Your password will remain unchanged.\n\n---\n\u{a9} 2024 Code Warrior. Master C programming through adventure."@
}

/// The exact text of the welcome html message.
pub open spec fn spec_welcome_html(username: Option<Seq<char>>) -> Seq<char> {
    "<!DOCTYPE html>\n<html>\n<head>\n    <meta charset=\"utf-8\">\n    <meta name=\"viewport\" content=\"width=device-width, initial-scale=1.0\">\n    <title>Welcome to Code Warrior</title>\n    <style>\n        body {\n            font-family: 'Segoe UI', Tahoma, Geneva, Verdana, sans-serif;\n            background: linear-gradient(135deg, #0f172a 0%, #1e293b 100%);\n            color: #e2e8f0;\n            margin: 0;\n            padding: 40px 20px;\n        }\n        .container {\n            max-width: 560px;\n            margin: 0 auto;\n            background: #1e293b;\n            border-radius: 12px;\n            border: 1px solid #334155;\n            overflow: hidden;\n        }\n        .header {\n            background: linear-gradient(135deg, #22c55e 0%, #16a34a 100%);\n            padding: 32px;\n            text-align: center;\n        }\n        .header h1 {\n            margin: 0;\n            color: #fff;\n            font-size: 28px;\n            font-weight: 700;\n            letter-spacing: 2px;\n        }\n        .content {\n            padding: 32px;\n        }\n        .greeting {\n            font-size: 24px;\n            margin-bottom: 16px;\n            color: #fbbf24;\n        }\n        .message {\n            color: #94a3b8;\n            line-height: 1.6;\n            margin-bottom: 24px;\n        }\n        .feature {\n            display: flex;\n            align-items: flex-start;\n            margin-bottom: 16px;\n        }\n        .feature-icon {\n            font-size: 24px;\n            margin-right: 12px;\n        }\n        .feature-text {\n            color: #cbd5e1;\n        }\n        .button {\n            display: inline-block;\n            background: linear-gradient(135deg, #f59e0b 0%, #d97706 100%);\n            color: #0f172a !important;\n            text-decoration: none;\n            padding: 14px 32px;\n            border-radius: 8px;\n            font-weight: 600;\n            font-size: 16px;\n        }\n        .footer {\n            padding: 24px 32px;\n            background: #0f172a;\n            text-align: center;\n            color: #64748b;\n            font-size: 12px;\n        }\n    </style>\n</head>\n<body>\n    <div class=\"container\">\n        <div class=\"header\">\n            <h1>\u{2694}\u{fe0f} CODE WARRIOR</h1>\n        </div>\n        <div class=\"content\">\n            <p class=\"greeting\">"@ + spec_welcome_greeting(username) + "</p>\n            <p class=\"message\">\n                Your email has been verified and you're ready to begin your journey to master C programming!\n            </p>\n            <p class=\"message\" style=\"font-weight: 600; color: #e2e8f0;\">What awaits you:</p>\n            <div class=\"feature\">\n                <span class=\"feature-icon\">\u{1f5e1}\u{fe0f}</span>\n                <span class=\"feature-text\">Battle through coding challenges that teach real C concepts</span>\n            </div>\n            <div class=\"feature\">\n                <span class=\"feature-icon\">\u{1f3f0}</span>\n                <span class=\"feature-text\">Explore a world where memory management is magic</span>\n            </div>\n            <div class=\"feature\">\n                <span class=\"feature-icon\">\u{2b50}</span>\n                <span class=\"feature-text\">Earn XP and unlock new levels as you progress</span>\n            </div>\n            <p style=\"text-align: center; margin: 32px 0;\">\n                <a href=\"https://code-warrior-seven.vercel.app\" class=\"button\">Start Your Adventure</a>\n            </p>\n        </div>\n        <div class=\"footer\">\n            <p>\u{a9} 2024 Code Warrior. Master C programming through adventure.</p>\n        </div>\n    </div>\n</body>\n</html>"@
}

/// The exact text of the welcome text message.
pub open spec fn spec_welcome_text(username: Option<Seq<char>>) -> Seq<char> {
    "CODE WARRIOR - Welcome!\n\n"@ + spec_welcome_greeting(username) + "\n\nYour email has been verified and you're ready to begin your journey to master C programming!\n\nWhat awaits you:\n\n\u{1f5e1}\u{fe0f} Battle through coding challenges that teach real C concepts\n\u{1f3f0} Explore a world where memory management is magic\n\u{2b50} Earn XP and unlock new levels as you progress\n\nStart your adventure: https://code-warrior-seven.vercel.app\n\n---\n\u{a9} 2024 Code Warrior. Master C programming through adventure."@
}

impl EmailTemplate {
    /// The subject line of this message.
    pub fn subject(&self) -> (r: &'static str)
        ensures
            self is Verification ==> r@ == "Verify your Code Warrior account"@,
            self is PasswordReset ==> r@ == "Reset your Code Warrior password"@,
            self is Welcome ==> r@ == "Welcome to Code Warrior!"@,
    {
        match self {
            EmailTemplate::Verification { .. } => "Verify your Code Warrior account",
            EmailTemplate::PasswordReset { .. } => "Reset your Code Warrior password",
            EmailTemplate::Welcome { .. } => "Welcome to Code Warrior!",
        }
    }

    /// The HTML body of this message.
    pub fn render_html(&self) -> (r: String)
        ensures
            self matches EmailTemplate::Verification { username, verification_link } ==> r@
                == spec_verification_html(opt_string_view(*username), verification_link@),
            self matches EmailTemplate::PasswordReset { username, reset_link } ==> r@
                == spec_password_reset_html(opt_string_view(*username), reset_link@),
            self matches EmailTemplate::Welcome { username } ==> r@ == spec_welcome_html(
                opt_string_view(*username),
            ),
    {
        match self {
            EmailTemplate::Verification { username, verification_link } => {
                self.render_verification_html(opt_as_deref(username), verification_link.as_str())
            },
            EmailTemplate::PasswordReset { username, reset_link } => {
                self.render_password_reset_html(opt_as_deref(username), reset_link.as_str())
            },
            EmailTemplate::Welcome { username } => {
                self.render_welcome_html(opt_as_deref(username))
            },
        }
    }

    /// The plain-text body of this message.
    pub fn render_text(&self) -> (r: String)
        ensures
            self matches EmailTemplate::Verification { username, verification_link } ==> r@
                == spec_verification_text(opt_string_view(*username), verification_link@),
            self matches EmailTemplate::PasswordReset { username, reset_link } ==> r@
                == spec_password_reset_text(opt_string_view(*username), reset_link@),
            self matches EmailTemplate::Welcome { username } ==> r@ == spec_welcome_text(
                opt_string_view(*username),
            ),
    {
        match self {
            EmailTemplate::Verification { username, verification_link } => {
                self.render_verification_text(opt_as_deref(username), verification_link.as_str())
            },
            EmailTemplate::PasswordReset { username, reset_link } => {
                self.render_password_reset_text(opt_as_deref(username), reset_link.as_str())
            },
            EmailTemplate::Welcome { username } => {
                self.render_welcome_text(opt_as_deref(username))
            },
        }
    }

    pub fn render_verification_html(&self, username: Option<&str>, link: &str) -> (r: String)
        ensures
            r@ == spec_verification_html(opt_str_view(username), link@),
    {
        let mut out = String::new();
        out.append("<!DOCTYPE html>\n<html>\n<head>\n    <meta charset=\"utf-8\">\n    <meta name=\"viewport\" content=\"width=device-width, initial-scale=1.0\">\n    <title>Verify your email</title>\n    <style>\n        body {\n            font-family: 'Segoe UI', Tahoma, Geneva, Verdana, sans-serif;\n            background: linear-gradient(135deg, #0f172a 0%, #1e293b 100%);\n            color: #e2e8f0;\n            margin: 0;\n            padding: 40px 20px;\n        }\n        .container {\n            max-width: 560px;\n            margin: 0 auto;\n            background: #1e293b;\n            border-radius: 12px;\n            border: 1px solid #334155;\n            overflow: hidden;\n        }\n        .header {\n            background: linear-gradient(135deg, #f59e0b 0%, #d97706 100%);\n            padding: 32px;\n            text-align: center;\n        }\n        .header h1 {\n            margin: 0;\n            color: #0f172a;\n            font-size: 28px;\n            font-weight: 700;\n            letter-spacing: 2px;\n        }\n        .content {\n            padding: 32px;\n        }\n        .greeting {\n            font-size: 18px;\n            margin-bottom: 16px;\n        }\n        .message {\n            color: #94a3b8;\n            line-height: 1.6;\n            margin-bottom: 24px;\n        }\n        .button {\n            display: inline-block;\n            background: linear-gradient(135deg, #22c55e 0%, #16a34a 100%);\n            color: #fff !important;\n            text-decoration: none;\n            padding: 14px 32px;\n            border-radius: 8px;\n            font-weight: 600;\n            font-size: 16px;\n        }\n        .button:hover {\n            background: linear-gradient(135deg, #16a34a 0%, #15803d 100%);\n        }\n        .footer {\n            padding: 24px 32px;\n            background: #0f172a;\n            text-align: center;\n            color: #64748b;\n            font-size: 12px;\n        }\n        .link-fallback {\n            color: #64748b;\n            font-size: 12px;\n            word-break: break-all;\n            margin-top: 16px;\n        }\n    </style>\n</head>\n<body>\n    <div class=\"container\">\n        <div class=\"header\">\n            <h1>\u{2694}\u{fe0f} CODE WARRIOR</h1>\n        </div>\n        <div class=\"content\">\n            <p class=\"greeting\">");
        let greeting = greeting_line(username);
        out.append(greeting.as_str());
        out.append("</p>\n            <p class=\"message\">\n                Thanks for joining Code Warrior! Before you can start your journey to master C programming,\n                please verify your email address by clicking the button below.\n            </p>\n            <p style=\"text-align: center; margin: 32px 0;\">\n                <a href=\"");
        out.append(link);
        out.append("\" class=\"button\">Verify Email</a>\n            </p>\n            <p class=\"message\">\n                This link will expire in 24 hours. If you didn't create an account, you can safely ignore this email.\n            </p>\n            <p class=\"link-fallback\">\n                If the button doesn't work, copy and paste this link into your browser:<br>\n                ");
        out.append(link);
        out.append("\n            </p>\n        </div>\n        <div class=\"footer\">\n            <p>\u{a9} 2024 Code Warrior. Master C programming through adventure.</p>\n        </div>\n    </div>\n</body>\n</html>");
        out
    }

    pub fn render_verification_text(&self, username: Option<&str>, link: &str) -> (r: String)
        ensures
            r@ == spec_verification_text(opt_str_view(username), link@),
    {
        let mut out = String::new();
        out.append("CODE WARRIOR - Verify Your Email\n\n");
        let greeting = greeting_line(username);
        out.append(greeting.as_str());
        out.append("\n\nThanks for joining Code Warrior! Before you can start your journey to master C programming, please verify your email address by visiting the link below:\n\n");
        out.append(link);
        out.append("\n\nThis link will expire in 24 hours. If you didn't create an account, you can safely ignore this email.\n\n---\n\u{a9} 2024 Code Warrior. Master C programming through adventure.");
        out
    }

    pub fn render_password_reset_html(&self, username: Option<&str>, link: &str) -> (r: String)
        ensures
            r@ == spec_password_reset_html(opt_str_view(username), link@),
    {
        let mut out = String::new();
        out.append("<!DOCTYPE html>\n<html>\n<head>\n    <meta charset=\"utf-8\">\n    <meta name=\"viewport\" content=\"width=device-width, initial-scale=1.0\">\n    <title>Reset your password</title>\n    <style>\n        body {\n            font-family: 'Segoe UI', Tahoma, Geneva, Verdana, sans-serif;\n            background: linear-gradient(135deg, #0f172a 0%, #1e293b 100%);\n            color: #e2e8f0;\n            margin: 0;\n            padding: 40px 20px;\n        }\n        .container {\n            max-width: 560px;\n            margin: 0 auto;\n            background: #1e293b;\n            border-radius: 12px;\n            border: 1px solid #334155;\n            overflow: hidden;\n        }\n        .header {\n            background: linear-gradient(135deg, #ef4444 0%, #dc2626 100%);\n            padding: 32px;\n            text-align: center;\n        }\n        .header h1 {\n            margin: 0;\n            color: #fff;\n            font-size: 28px;\n            font-weight: 700;\n            letter-spacing: 2px;\n        }\n        .content {\n            padding: 32px;\n        }\n        .greeting {\n            font-size: 18px;\n            margin-bottom: 16px;\n        }\n        .message {\n            color: #94a3b8;\n            line-height: 1.6;\n            margin-bottom: 24px;\n        }\n        .button {\n            display: inline-block;\n            background: linear-gradient(135deg, #f59e0b 0%, #d97706 100%);\n            color: #0f172a !important;\n            text-decoration: none;\n            padding: 14px 32px;\n            border-radius: 8px;\n            font-weight: 600;\n            font-size: 16px;\n        }\n        .footer {\n            padding: 24px 32px;\n            background: #0f172a;\n            text-align: center;\n            color: #64748b;\n            font-size: 12px;\n        }\n        .link-fallback {\n            color: #64748b;\n            font-size: 12px;\n            word-break: break-all;\n            margin-top: 16px;\n        }\n        .warning {\n            background: #451a03;\n            border: 1px solid #92400e;\n            border-radius: 8px;\n            padding: 12px 16px;\n            color: #fbbf24;\n            font-size: 13px;\n            margin-top: 24px;\n        }\n    </style>\n</head>\n<body>\n    <div class=\"container\">\n        <div class=\"header\">\n            <h1>\u{1f510} PASSWORD RESET</h1>\n        </div>\n        <div class=\"content\">\n            <p class=\"greeting\">");
        let greeting = greeting_line(username);
        out.append(greeting.as_str());
        out.append("</p>\n            <p class=\"message\">\n                We received a request to reset your Code Warrior password. Click the button below to create a new password.\n            </p>\n            <p style=\"text-align: center; margin: 32px 0;\">\n                <a href=\"");
        out.append(link);
        out.append("\" class=\"button\">Reset Password</a>\n            </p>\n            <p class=\"message\">\n                This link will expire in 1 hour for security reasons.\n            </p>\n            <div class=\"warning\">\n                \u{26a0}\u{fe0f} If you didn't request a password reset, please ignore this email. Your password will remain unchanged.\n            </div>\n            <p class=\"link-fallback\">\n                If the button doesn't work, copy and paste this link into your browser:<br>\n                ");
        out.append(link);
        out.append("\n            </p>\n        </div>\n        <div class=\"footer\">\n            <p>\u{a9} 2024 Code Warrior. Master C programming through adventure.</p>\n        </div>\n    </div>\n</body>\n</html>");
        out
    }

    pub fn render_password_reset_text(&self, username: Option<&str>, link: &str) -> (r: String)
        ensures
            r@ == spec_password_reset_text(opt_str_view(username), link@),
    {
        let mut out = String::new();
        out.append("CODE WARRIOR - Password Reset\n\n");
        let greeting = greeting_line(username);
        out.append(greeting.as_str());
        out.append("\n\nWe received a request to reset your Code Warrior password. Visit the link below to create a new password:\n\n");
        out.append(link);
        out.append("\n\nThis link will expire in 1 hour for security reasons.\n\n\u{26a0}\u{fe0f} If you didn't request a password reset, please ignore this email. Your password will remain unchanged.\n\n---\n\u{a9} 2024 Code Warrior. Master C programming through adventure.");
        out
    }

    pub fn render_welcome_html(&self, username: Option<&str>) -> (r: String)
        ensures
            r@ == spec_welcome_html(opt_str_view(username)),
    {
        let mut out = String::new();
        out.append("<!DOCTYPE html>\n<html>\n<head>\n    <meta charset=\"utf-8\">\n    <meta name=\"viewport\" content=\"width=device-width, initial-scale=1.0\">\n    <title>Welcome to Code Warrior</title>\n    <style>\n        body {\n            font-family: 'Segoe UI', Tahoma, Geneva, Verdana, sans-serif;\n            background: linear-gradient(135deg, #0f172a 0%, #1e293b 100%);\n            color: #e2e8f0;\n            margin: 0;\n            padding: 40px 20px;\n        }\n        .container {\n            max-width: 560px;\n            margin: 0 auto;\n            background: #1e293b;\n            border-radius: 12px;\n            border: 1px solid #334155;\n            overflow: hidden;\n        }\n        .header {\n            background: linear-gradient(135deg, #22c55e 0%, #16a34a 100%);\n            padding: 32px;\n            text-align: center;\n        }\n        .header h1 {\n            margin: 0;\n            color: #fff;\n            font-size: 28px;\n            font-weight: 700;\n            letter-spacing: 2px;\n        }\n        .content {\n            padding: 32px;\n        }\n        .greeting {\n            font-size: 24px;\n            margin-bottom: 16px;\n            color: #fbbf24;\n        }\n        .message {\n            color: #94a3b8;\n            line-height: 1.6;\n            margin-bottom: 24px;\n        }\n        .feature {\n            display: flex;\n            align-items: flex-start;\n            margin-bottom: 16px;\n        }\n        .feature-icon {\n            font-size: 24px;\n            margin-right: 12px;\n        }\n        .feature-text {\n            color: #cbd5e1;\n        }\n        .button {\n            display: inline-block;\n            background: linear-gradient(135deg, #f59e0b 0%, #d97706 100%);\n            color: #0f172a !important;\n            text-decoration: none;\n            padding: 14px 32px;\n            border-radius: 8px;\n            font-weight: 600;\n            font-size: 16px;\n        }\n        .footer {\n            padding: 24px 32px;\n            background: #0f172a;\n            text-align: center;\n            color: #64748b;\n            font-size: 12px;\n        }\n    </style>\n</head>\n<body>\n    <div class=\"container\">\n        <div class=\"header\">\n            <h1>\u{2694}\u{fe0f} CODE WARRIOR</h1>\n        </div>\n        <div class=\"content\">\n            <p class=\"greeting\">");
        let greeting = welcome_greeting_line(username);
        out.append(greeting.as_str());
        out.append("</p>\n            <p class=\"message\">\n                Your email has been verified and you're ready to begin your journey to master C programming!\n            </p>\n            <p class=\"message\" style=\"font-weight: 600; color: #e2e8f0;\">What awaits you:</p>\n            <div class=\"feature\">\n                <span class=\"feature-icon\">\u{1f5e1}\u{fe0f}</span>\n                <span class=\"feature-text\">Battle through coding challenges that teach real C concepts</span>\n            </div>\n            <div class=\"feature\">\n                <span class=\"feature-icon\">\u{1f3f0}</span>\n                <span class=\"feature-text\">Explore a world where memory management is magic</span>\n            </div>\n            <div class=\"feature\">\n                <span class=\"feature-icon\">\u{2b50}</span>\n                <span class=\"feature-text\">Earn XP and unlock new levels as you progress</span>\n            </div>\n            <p style=\"text-align: center; margin: 32px 0;\">\n                <a href=\"https://code-warrior-seven.vercel.app\" class=\"button\">Start Your Adventure</a>\n            </p>\n        </div>\n        <div class=\"footer\">\n            <p>\u{a9} 2024 Code Warrior. Master C programming through adventure.</p>\n        </div>\n    </div>\n</body>\n</html>");
        out
    }

    pub fn render_welcome_text(&self, username: Option<&str>) -> (r: String)
        ensures
            r@ == spec_welcome_text(opt_str_view(username)),
    {
        let mut out = String::new();
        out.append("CODE WARRIOR - Welcome!\n\n");
        let greeting = welcome_greeting_line(username);
        out.append(greeting.as_str());
        out.append("\n\nYour email has been verified and you're ready to begin your journey to master C programming!\n\nWhat awaits you:\n\n\u{1f5e1}\u{fe0f} Battle through coding challenges that teach real C concepts\n\u{1f3f0} Explore a world where memory management is magic\n\u{2b50} Earn XP and unlock new levels as you progress\n\nStart your adventure: https://code-warrior-seven.vercel.app\n\n---\n\u{a9} 2024 Code Warrior. Master C programming through adventure.");
        out
    }

}

/// Borrow the name out of its option.
fn opt_as_deref(u: &Option<String>) -> (r: Option<&str>)
    ensures
        opt_str_view(r) == opt_string_view(*u),
{
    match u {
        Some(s) => Some(s.as_str()),
        None => None,
    }
}

} // verus!
