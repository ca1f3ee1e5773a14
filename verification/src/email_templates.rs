//! HTML e-mails sent to end users and domain owners.
use vstd::prelude::*;
use crate::outside::{parsed_url, url_scheme_and_host};
use crate::text::owned;

verus! {

/// The label an e-mail shows for the application origin: the host of the origin
/// URL when it parses and has one, else the origin text itself.
pub open spec fn origin_label_text(app_origin: Seq<char>) -> Seq<char> {
    match parsed_url(app_origin) {
        Some((_, Some(host))) => host,
        _ => app_origin,
    }
}

fn origin_label(app_origin: &str) -> (r: String)
    ensures
        r@ == origin_label_text(app_origin@),
{
    match url_scheme_and_host(app_origin) {
        Some((_, Some(host))) => host,
        _ => owned(app_origin),
    }
}

/// The HTML of a call-to-action button.
pub open spec fn button_html(url: Seq<char>, label: Seq<char>) -> Seq<char> {
    "<a href=\""@ + url + "\" style=\"display:inline-block;padding:12px 18px;background-color:#111827;color:#ffffff;text-decoration:none;border-radius:8px;font-weight:600;\">"@ + label + "</a>"@
}

pub fn primary_button(url: &str, label: &str) -> (r: String)
    ensures
        r@ == button_html(url@, label@),
{
    let mut s: String = String::new();
    s.append("<a href=\"");
    s.append(url);
    s.append("\" style=\"display:inline-block;padding:12px 18px;background-color:#111827;color:#ffffff;text-decoration:none;border-radius:8px;font-weight:600;\">");
    s.append(label);
    s.append("</a>");
    s
}

/// The HTML of an optional footer note.
pub open spec fn footer_html(note: Option<Seq<char>>) -> Seq<char> {
    match note {
        Some(note) => "<p style=\"margin:8px 0 0;color:#4b5563;font-size:13px;\">"@ + note + "</p>"@,
        None => Seq::<char>::empty(),
    }
}

/// The complete HTML document of an e-mail.
pub open spec fn email_html(
    app_origin: Seq<char>,
    headline: Seq<char>,
    lead: Seq<char>,
    body_html: Seq<char>,
    reason: Seq<char>,
    footer_note: Option<Seq<char>>,
) -> Seq<char> {
    "<!DOCTYPE html>\n<html lang=\"en\">\n  <body style=\"background:#f8fafc;margin:0;padding:24px;font-family:Arial,Helvetica,sans-serif;\">\n    <div style=\"max-width:560px;margin:0 auto;background:#ffffff;border:1px solid #e5e7eb;border-radius:12px;padding:24px;box-shadow:0 8px 30px rgba(0,0,0,0.04);\">\n      <div style=\"font-size:12px;letter-spacing:0.08em;text-transform:uppercase;color:#6b7280;\">"@ + "reauth"@ + " - "@ + origin_label_text(app_origin) + "</div>\n      <h1 style=\"margin:12px 0 8px;font-size:22px;color:#111827;\">"@ + headline + "</h1>\n      <p style=\"margin:0 0 12px;font-size:15px;color:#111827;line-height:1.6;\">"@ + lead + "</p>\n      "@ + body_html + "\n      <div style=\"margin-top:20px;padding-top:16px;border-top:1px solid #e5e7eb;\">\n        <p style=\"margin:0 0 6px;font-size:13px;color:#4b5563;\">"@ + "Why you got this email"@ + ": "@ + reason + ".</p>\n        <p style=\"margin:0;font-size:13px;color:#4b5563;\">"@ + "If you didn't request this, you can safely ignore it."@ + "</p>\n        "@ + footer_html(footer_note) + "\n      </div>\n      <p style=\"margin:14px 0 4px;font-size:12px;color:#9ca3af;\">"@ + "Sent by"@ + " "@ + "reauth"@ + " - "@ + origin_label_text(app_origin) + "</p>\n      <p style=\"margin:0;font-size:11px;color:#9ca3af;line-height:1.5;\">\n        "@ + "TQDM Inc."@ + " · "@ + "1111B S Governors Ave, STE 23256, Dover, DE 19904, USA"@ + "\n      </p>\n    </div>\n  </body>\n</html>\n"@
}

pub fn wrap_email(
    app_origin: &str,
    headline: &str,
    lead: &str,
    body_html: &str,
    reason: &str,
    footer_note: Option<&str>,
) -> (r: String)
    ensures
        r@ == email_html(app_origin@, headline@, lead@, body_html@, reason@, match footer_note {
            Some(n) => Some(n@),
            None => None,
        }),
{
    let origin: String = origin_label(app_origin);
    let footer: String = match footer_note {
        Some(note) => {
            let mut f: String = String::new();
            f.append("<p style=\"margin:8px 0 0;color:#4b5563;font-size:13px;\">");
            f.append(note);
            f.append("</p>");
            f
        },
        None => String::new(),
    };
    let mut s: String = String::new();
    s.append("<!DOCTYPE html>\n<html lang=\"en\">\n  <body style=\"background:#f8fafc;margin:0;padding:24px;font-family:Arial,Helvetica,sans-serif;\">\n    <div style=\"max-width:560px;margin:0 auto;background:#ffffff;border:1px solid #e5e7eb;border-radius:12px;padding:24px;box-shadow:0 8px 30px rgba(0,0,0,0.04);\">\n      <div style=\"font-size:12px;letter-spacing:0.08em;text-transform:uppercase;color:#6b7280;\">");
    s.append("reauth");
    s.append(" - ");
    s.append(origin.as_str());
    s.append("</div>\n      <h1 style=\"margin:12px 0 8px;font-size:22px;color:#111827;\">");
    s.append(headline);
    s.append("</h1>\n      <p style=\"margin:0 0 12px;font-size:15px;color:#111827;line-height:1.6;\">");
    s.append(lead);
    s.append("</p>\n      ");
    s.append(body_html);
    s.append("\n      <div style=\"margin-top:20px;padding-top:16px;border-top:1px solid #e5e7eb;\">\n        <p style=\"margin:0 0 6px;font-size:13px;color:#4b5563;\">");
    s.append("Why you got this email");
    s.append(": ");
    s.append(reason);
    s.append(".</p>\n        <p style=\"margin:0;font-size:13px;color:#4b5563;\">");
    s.append("If you didn't request this, you can safely ignore it.");
    s.append("</p>\n        ");
    s.append(footer.as_str());
    s.append("\n      </div>\n      <p style=\"margin:14px 0 4px;font-size:12px;color:#9ca3af;\">");
    s.append("Sent by");
    s.append(" ");
    s.append("reauth");
    s.append(" - ");
    s.append(origin.as_str());
    s.append("</p>\n      <p style=\"margin:0;font-size:11px;color:#9ca3af;line-height:1.5;\">\n        ");
    s.append("TQDM Inc.");
    s.append(" · ");
    s.append("1111B S Governors Ave, STE 23256, Dover, DE 19904, USA");
    s.append("\n      </p>\n    </div>\n  </body>\n</html>\n");
    s
}

/// The subject of the account-created e-mail.
pub open spec fn account_created_email_subject(domain: Seq<char>) -> Seq<char> {
    "Welcome to "@ + domain
}

/// The HTML of the account-created e-mail.
pub open spec fn account_created_email_html(app_origin: Seq<char>, domain: Seq<char>) -> Seq<char> {
    email_html(
        app_origin,
        "Your account has been created"@,
        "You've successfully signed in to <strong>"@ + domain + "</strong>. Your account is now active."@,
        "<p style=\"margin:12px 0 0;color:#374151;\">You can sign in anytime using your email address. We'll send you a secure magic link each time.</p>"@,
        "you signed up for "@ + domain,
        None,
    )
}

pub fn account_created_email(app_origin: &str, domain: &str) -> (r: (String, String))
    ensures
        r.0@ == account_created_email_subject(domain@),
        r.1@ == account_created_email_html(app_origin@, domain@),
{
    let mut subject: String = String::new();
    subject.append("Welcome to ");
    subject.append(domain);
    let mut lead: String = String::new();
    lead.append("You've successfully signed in to <strong>");
    lead.append(domain);
    lead.append("</strong>. Your account is now active.");
    let body: String = owned("<p style=\"margin:12px 0 0;color:#374151;\">You can sign in anytime using your email address. We'll send you a secure magic link each time.</p>");
    let mut reason: String = String::new();
    reason.append("you signed up for ");
    reason.append(domain);
    let html: String = wrap_email(app_origin, "Your account has been created", lead.as_str(), body.as_str(), reason.as_str(), None);
    (subject, html)
}

/// The subject of the waitlist-approval e-mail.
pub open spec fn account_whitelisted_email_subject(domain: Seq<char>) -> Seq<char> {
    "You're approved! Access "@ + domain + " now"@
}

/// The HTML of the waitlist-approval e-mail.
pub open spec fn account_whitelisted_email_html(app_origin: Seq<char>, domain: Seq<char>, login_url: Seq<char>) -> Seq<char> {
    email_html(
        app_origin,
        "You've been approved!"@,
        "Great news! Your account for <strong>"@ + domain + "</strong> has been approved. You now have full access."@,
        button_html(login_url, "Sign in now"@) + "<p style=\"margin:12px 0 0;color:#374151;\">Thank you for your patience. You can now sign in and start using all features.</p>"@,
        "you were on the waitlist for "@ + domain,
        None,
    )
}

pub fn account_whitelisted_email(app_origin: &str, domain: &str, login_url: &str) -> (r: (String, String))
    ensures
        r.0@ == account_whitelisted_email_subject(domain@),
        r.1@ == account_whitelisted_email_html(app_origin@, domain@, login_url@),
{
    let mut subject: String = String::new();
    subject.append("You're approved! Access ");
    subject.append(domain);
    subject.append(" now");
    let mut lead: String = String::new();
    lead.append("Great news! Your account for <strong>");
    lead.append(domain);
    lead.append("</strong> has been approved. You now have full access.");
    let button: String = primary_button(login_url, "Sign in now");

    let mut body: String = String::new();
    body.append(button.as_str());
    body.append("<p style=\"margin:12px 0 0;color:#374151;\">Thank you for your patience. You can now sign in and start using all features.</p>");
    let mut reason: String = String::new();
    reason.append("you were on the waitlist for ");
    reason.append(domain);
    let html: String = wrap_email(app_origin, "You've been approved!", lead.as_str(), body.as_str(), reason.as_str(), None);
    (subject, html)
}

/// The subject of the account-suspended e-mail.
pub open spec fn account_frozen_email_subject(domain: Seq<char>) -> Seq<char> {
    "Your "@ + domain + " account has been suspended"@
}

/// The HTML of the account-suspended e-mail.
pub open spec fn account_frozen_email_html(app_origin: Seq<char>, domain: Seq<char>) -> Seq<char> {
    email_html(
        app_origin,
        "Account suspended"@,
        "Your account for <strong>"@ + domain + "</strong> has been suspended by an administrator."@,
        "<p style=\"margin:12px 0 0;color:#374151;\">If you believe this is a mistake, please contact the site administrator.</p>"@,
        "your "@ + domain + " account status changed"@,
        None,
    )
}

pub fn account_frozen_email(app_origin: &str, domain: &str) -> (r: (String, String))
    ensures
        r.0@ == account_frozen_email_subject(domain@),
        r.1@ == account_frozen_email_html(app_origin@, domain@),
{
    let mut subject: String = String::new();
    subject.append("Your ");
    subject.append(domain);
    subject.append(" account has been suspended");
    let mut lead: String = String::new();
    lead.append("Your account for <strong>");
    lead.append(domain);
    lead.append("</strong> has been suspended by an administrator.");
    let body: String = owned("<p style=\"margin:12px 0 0;color:#374151;\">If you believe this is a mistake, please contact the site administrator.</p>");
    let mut reason: String = String::new();
    reason.append("your ");
    reason.append(domain);
    reason.append(" account status changed");
    let html: String = wrap_email(app_origin, "Account suspended", lead.as_str(), body.as_str(), reason.as_str(), None);
    (subject, html)
}

/// The subject of the account-restored e-mail.
pub open spec fn account_unfrozen_email_subject(domain: Seq<char>) -> Seq<char> {
    "Your "@ + domain + " account has been restored"@
}

/// The HTML of the account-restored e-mail.
pub open spec fn account_unfrozen_email_html(app_origin: Seq<char>, domain: Seq<char>, login_url: Seq<char>) -> Seq<char> {
    email_html(
        app_origin,
        "Account restored"@,
        "Good news! Your account for <strong>"@ + domain + "</strong> has been restored. You can sign in again."@,
        button_html(login_url, "Sign in now"@) + "<p style=\"margin:12px 0 0;color:#374151;\">Your access has been fully restored.</p>"@,
        "your "@ + domain + " account status changed"@,
        None,
    )
}

pub fn account_unfrozen_email(app_origin: &str, domain: &str, login_url: &str) -> (r: (String, String))
    ensures
        r.0@ == account_unfrozen_email_subject(domain@),
        r.1@ == account_unfrozen_email_html(app_origin@, domain@, login_url@),
{
    let mut subject: String = String::new();
    subject.append("Your ");
    subject.append(domain);
    subject.append(" account has been restored");
    let mut lead: String = String::new();
    lead.append("Good news! Your account for <strong>");
    lead.append(domain);
    lead.append("</strong> has been restored. You can sign in again.");
    let button: String = primary_button(login_url, "Sign in now");

    let mut body: String = String::new();
    body.append(button.as_str());
    body.append("<p style=\"margin:12px 0 0;color:#374151;\">Your access has been fully restored.</p>");
    let mut reason: String = String::new();
    reason.append("your ");
    reason.append(domain);
    reason.append(" account status changed");
    let html: String = wrap_email(app_origin, "Account restored", lead.as_str(), body.as_str(), reason.as_str(), None);
    (subject, html)
}

/// The subject of the invitation e-mail.
pub open spec fn account_invited_email_subject(domain: Seq<char>) -> Seq<char> {
    "You've been invited to "@ + domain
}

/// The HTML of the invitation e-mail.
pub open spec fn account_invited_email_html(app_origin: Seq<char>, domain: Seq<char>, login_url: Seq<char>) -> Seq<char> {
    email_html(
        app_origin,
        "You're invited!"@,
        "You've been invited to join <strong>"@ + domain + "</strong>. Click the button below to sign in and get started."@,
        button_html(login_url, "Accept invitation"@) + "<p style=\"margin:12px 0 0;color:#374151;\">Simply click the button above and we'll send you a secure sign-in link.</p>"@,
        "an administrator invited you to "@ + domain,
        None,
    )
}

pub fn account_invited_email(app_origin: &str, domain: &str, login_url: &str) -> (r: (String, String))
    ensures
        r.0@ == account_invited_email_subject(domain@),
        r.1@ == account_invited_email_html(app_origin@, domain@, login_url@),
{
    let mut subject: String = String::new();
    subject.append("You've been invited to ");
    subject.append(domain);
    let mut lead: String = String::new();
    lead.append("You've been invited to join <strong>");
    lead.append(domain);
    lead.append("</strong>. Click the button below to sign in and get started.");
    let button: String = primary_button(login_url, "Accept invitation");

    let mut body: String = String::new();
    body.append(button.as_str());
    body.append("<p style=\"margin:12px 0 0;color:#374151;\">Simply click the button above and we'll send you a secure sign-in link.</p>");
    let mut reason: String = String::new();
    reason.append("an administrator invited you to ");
    reason.append(domain);
    let html: String = wrap_email(app_origin, "You're invited!", lead.as_str(), body.as_str(), reason.as_str(), None);
    (subject, html)
}

/// The subject of the verification-failure e-mail.
pub open spec fn domain_verification_failed_email_subject(domain: Seq<char>) -> Seq<char> {
    "Domain verification failed: "@ + domain
}

/// The HTML of the verification-failure e-mail.
pub open spec fn domain_verification_failed_email_html(app_origin: Seq<char>, domain: Seq<char>) -> Seq<char> {
    email_html(
        app_origin,
        "Domain verification failed"@,
        "We couldn't verify your domain <strong>"@ + domain + "</strong> after checking for one hour."@,
        "<p style=\"margin:12px 0 0;color:#374151;\">Please check that your DNS records are correctly configured:</p>\n        <ul style=\"margin:12px 0;color:#374151;padding-left:20px;\">\n          <li>CNAME record for <code>"@ + domain + "</code> pointing to <code>ingress.reauth.dev</code></li>\n          <li>TXT record for <code>_reauth."@ + domain + "</code> with your project ID</li>\n        </ul>\n        <p style=\"margin:12px 0 0;color:#374151;\">DNS propagation can sometimes take longer than expected. You can retry verification from your dashboard.</p>"@,
        "you added "@ + domain + " to your reauth account"@,
        None,
    )
}

pub fn domain_verification_failed_email(app_origin: &str, domain: &str) -> (r: (String, String))
    ensures
        r.0@ == domain_verification_failed_email_subject(domain@),
        r.1@ == domain_verification_failed_email_html(app_origin@, domain@),
{
    let mut subject: String = String::new();
    subject.append("Domain verification failed: ");
    subject.append(domain);
    let mut lead: String = String::new();
    lead.append("We couldn't verify your domain <strong>");
    lead.append(domain);
    lead.append("</strong> after checking for one hour.");

    let mut body: String = String::new();
    body.append("<p style=\"margin:12px 0 0;color:#374151;\">Please check that your DNS records are correctly configured:</p>\n        <ul style=\"margin:12px 0;color:#374151;padding-left:20px;\">\n          <li>CNAME record for <code>");
    body.append(domain);
    body.append("</code> pointing to <code>ingress.reauth.dev</code></li>\n          <li>TXT record for <code>_reauth.");
    body.append(domain);
    body.append("</code> with your project ID</li>\n        </ul>\n        <p style=\"margin:12px 0 0;color:#374151;\">DNS propagation can sometimes take longer than expected. You can retry verification from your dashboard.</p>");
    let mut reason: String = String::new();
    reason.append("you added ");
    reason.append(domain);
    reason.append(" to your reauth account");
    let html: String = wrap_email(app_origin, "Domain verification failed", lead.as_str(), body.as_str(), reason.as_str(), None);
    (subject, html)
}

} // verus!
