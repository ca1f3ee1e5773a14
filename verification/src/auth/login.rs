//! Sign-in of end users and the changes an owner makes to their accounts: what
//! is checked, which e-mails go out and which webhook events are raised.
use vstd::prelude::*;
use crate::app_error::AppError;
use crate::auth::tokens::{domain_token_message, generate_token, hash_domain_token};
use crate::auth::types::{
    DomainEndUserProfile, EmailMessage, GoogleLoginResult, MarkStateResult, OAuthStateData,
    UserEvent,
};
use crate::email_templates::{
    account_created_email, account_created_email_html, account_created_email_subject,
    account_frozen_email, account_frozen_email_html, account_frozen_email_subject,
    account_invited_email, account_invited_email_html, account_invited_email_subject,
    account_unfrozen_email, account_unfrozen_email_html, account_unfrozen_email_subject,
    account_whitelisted_email, account_whitelisted_email_html, account_whitelisted_email_subject,
    button_html, email_html, primary_button, wrap_email,
};
use crate::entities::webhook::WebhookEventType;
use crate::outside::{base64_url_no_pad, hex_lower, sha256_digest};
use crate::text::{concat2, concat3, owned, signed_decimal, signed_decimal_text, str_eq};

verus! {

// ============================================================================
// Addresses of a domain's login pages
// ============================================================================

/// The origin of a domain's login pages: `https://reauth.<domain>`.
pub open spec fn login_origin(domain: Seq<char>) -> Seq<char> {
    "https://reauth."@ + domain
}

/// The sign-in page of a domain: `https://reauth.<domain>/`.
pub open spec fn login_page(domain: Seq<char>) -> Seq<char> {
    "https://reauth."@ + domain + "/"@
}

fn app_origin(domain: &str) -> (r: String)
    ensures
        r@ == login_origin(domain@),
{
    concat2("https://reauth.", domain)
}

fn login_url(domain: &str) -> (r: String)
    ensures
        r@ == login_page(domain@),
{
    concat3("https://reauth.", domain, "/")
}

// ============================================================================
// Magic links
// ============================================================================

/// The link a magic-link e-mail carries: `https://reauth.<domain>/magic?token=<raw>`.
pub open spec fn magic_link(domain: Seq<char>, raw: Seq<char>) -> Seq<char> {
    "https://reauth."@ + domain + "/magic?token="@ + raw
}

/// The HTML shown under the button of a magic-link e-mail.
pub open spec fn magic_link_body(link: Seq<char>) -> Seq<char> {
    button_html(link, "Sign in"@)
        + "<p style=\"margin:12px 0 0;font-size:14px;color:#4b5563;\">If the button does not work, copy and paste this URL:<br><span style=\"word-break:break-all;color:#111827;\">"@
        + link + "</span></p>"@
}

/// The HTML of a magic-link e-mail.
pub open spec fn magic_link_email_html(domain: Seq<char>, raw: Seq<char>, ttl_minutes: int) -> Seq<char> {
    email_html(
        login_origin(domain),
        "Your sign-in link is ready"@,
        "Use this secure link to finish signing in. It expires in "@ + signed_decimal(ttl_minutes)
            + " minutes."@,
        magic_link_body(magic_link(domain, raw)),
        "you requested to sign in to "@ + domain,
        Some(
            "This one-time link keeps your account protected; delete this email if you did not request it."@,
        ),
    )
}

/// The e-mail that carries a magic link.
pub fn magic_link_email(domain_name: &str, raw: &str, ttl_minutes: i64) -> (r: EmailMessage)
    ensures
        r.subject@ == "Sign in to your account"@,
        r.html@ == magic_link_email_html(domain_name@, raw@, ttl_minutes as int),
{
    // Build magic link URL (uses reauth.{domain} for the login page)
    let mut link: String = concat2("https://reauth.", domain_name);
    link.append("/magic?token=");
    link.append(raw);
    let mut lead: String = owned("Use this secure link to finish signing in. It expires in ");
    lead.append(signed_decimal_text(ttl_minutes).as_str());
    lead.append(" minutes.");
    let reason: String = concat2("you requested to sign in to ", domain_name);
    let button: String = primary_button(link.as_str(), "Sign in");
    let mut body: String = button;
    body.append(
        "<p style=\"margin:12px 0 0;font-size:14px;color:#4b5563;\">If the button does not work, copy and paste this URL:<br><span style=\"word-break:break-all;color:#111827;\">",
    );
    body.append(link.as_str());
    body.append("</span></p>");
    let origin: String = app_origin(domain_name);
    let html: String = wrap_email(
        origin.as_str(),
        "Your sign-in link is ready",
        lead.as_str(),
        body.as_str(),
        reason.as_str(),
        Some(
            "This one-time link keeps your account protected; delete this email if you did not request it.",
        ),
    );
    EmailMessage { subject: owned("Sign in to your account"), html }
}

/// A magic link ready to be stored and sent: the raw token for the e-mail, the
/// hash it is stored under, and the e-mail.
#[derive(Debug, Clone)]
pub struct MagicLinkRequest {
    pub raw_token: String,
    pub token_hash: String,
    pub email: EmailMessage,
}

/// Request a magic link for domain end-user login: a fresh token, bound to the
/// domain by its hash, and the e-mail that carries it.
pub fn prepare_magic_link(domain_name: &str, ttl_minutes: i64) -> (r: MagicLinkRequest)
    ensures
        exists|b: Seq<u8>| b.len() == 32 && r.raw_token@ == #[trigger] base64_url_no_pad(b),
        r.token_hash@ == hex_lower(sha256_digest(domain_token_message(r.raw_token@, domain_name@))),
        r.email.subject@ == "Sign in to your account"@,
        r.email.html@ == magic_link_email_html(domain_name@, r.raw_token@, ttl_minutes as int),
{
    // Generate token (bound to domain only, session stored separately for verification)
    let raw: String = generate_token();
    let token_hash: String = hash_domain_token(raw.as_str(), domain_name);
    let email: EmailMessage = magic_link_email(domain_name, raw.as_str(), ttl_minutes);
    MagicLinkRequest { raw_token: raw, token_hash, email }
}

// ============================================================================
// Signing in
// ============================================================================

/// An end user may sign in unless frozen; the sign-in is the user's first when
/// the e-mail address was never verified. A link for a user that no longer
/// exists is not found.
pub fn check_login(found: &Option<DomainEndUserProfile>) -> (r: Result<bool, AppError>)
    ensures
        found is None ==> r == Err::<bool, AppError>(AppError::NotFound),
        found is Some && found.unwrap().is_frozen ==> r == Err::<bool, AppError>(AppError::AccountSuspended),
        found is Some && !found.unwrap().is_frozen ==> r == Ok::<bool, AppError>(
            found.unwrap().email_verified_at is None,
        ),
{
    match found {
        None => Err(AppError::NotFound),
        Some(user) => {
            // Check if user is frozen
            if user.is_frozen {
                return Err(AppError::AccountSuspended);
            }
            // Check if this is first login (email not verified yet)
            Ok(user.email_verified_at.is_none())
        },
    }
}

/// The events raised by a sign-in: `user.created` first on a first sign-in, then
/// `user.login`, each naming the user and the sign-in method.
pub fn login_events(user_id: u128, first_login: bool, auth_method: &str) -> (r: Vec<UserEvent>)
    ensures
        r@.len() == if first_login {
            2int
        } else {
            1int
        },
        first_login ==> r@[0].event == WebhookEventType::UserCreated,
        r@.last().event == WebhookEventType::UserLogin,
        forall|i: int|
            0 <= i < r@.len() ==> (#[trigger] r@[i]).user_id == user_id && (r@[i].auth_method matches Some(
                m,
            ) && m@ == auth_method@),
{
    let mut r: Vec<UserEvent> = Vec::new();
    if first_login {
        r.push(UserEvent { event: WebhookEventType::UserCreated, user_id, auth_method: Some(owned(auth_method)) });
    }
    r.push(UserEvent { event: WebhookEventType::UserLogin, user_id, auth_method: Some(owned(auth_method)) });
    r
}

/// The welcome e-mail sent on an end user's first sign-in.
pub fn welcome_email(domain_name: &str) -> (r: EmailMessage)
    ensures
        r.subject@ == account_created_email_subject(domain_name@),
        r.html@ == account_created_email_html(login_origin(domain_name@), domain_name@),
{
    let origin: String = app_origin(domain_name);
    let (subject, html) = account_created_email(origin.as_str(), domain_name);
    EmailMessage { subject, html }
}

// ============================================================================
// Google sign-in
// ============================================================================

/// What a Google sign-in leads to, once the accounts found for the Google id and
/// for the e-mail address are known.
#[derive(Debug)]
pub enum GoogleLoginStep {
    /// The Google account is linked to this end user: sign in.
    SignIn(DomainEndUserProfile),
    /// An end user has this e-mail address but no Google account yet: ask to link.
    ConfirmLink(GoogleLoginResult),
    /// Nobody has the Google account or the address: create the end user.
    CreateUser,
}

/// Find or create end user by Google ID (for OAuth login): the end user linked
/// to the Google id signs in; otherwise an end user with the address is asked to
/// link, unless already linked to another Google account; otherwise a new end
/// user is created. `by_email` is read only when no end user has the Google id.
pub fn google_login_step(
    by_google_id: Option<DomainEndUserProfile>,
    by_email: Option<DomainEndUserProfile>,
    email: &str,
    google_id: &str,
) -> (r: Result<GoogleLoginStep, AppError>)
    ensures
        by_google_id is Some ==> (r matches Ok(GoogleLoginStep::SignIn(v)) && v == by_google_id.unwrap()),
        by_google_id is None && by_email is Some && by_email.unwrap().google_id is Some ==> (r matches Err(
            AppError::InvalidInput(m),
        ) && m@ == "This email is already linked to a different Google account"@),
        by_google_id is None && by_email is Some && by_email.unwrap().google_id is None ==> (r matches Ok(
            GoogleLoginStep::ConfirmLink(GoogleLoginResult::NeedsLinkConfirmation {
                existing_user_id,
                email: e,
                google_id: g,
            }),
        ) && existing_user_id == by_email.unwrap().id && e@ == email@ && g@ == google_id@),
        by_google_id is None && by_email is None ==> r matches Ok(GoogleLoginStep::CreateUser),
{
    match by_google_id {
        // Existing linked account
        Some(user) => Ok(GoogleLoginStep::SignIn(user)),
        None => match by_email {
            Some(user) => {
                if user.google_id.is_some() {
                    // Already linked to a different Google account - conflict
                    return Err(AppError::InvalidInput(
                        "This email is already linked to a different Google account".to_owned(),
                    ));
                }
                // User exists but not linked - needs confirmation
                Ok(GoogleLoginStep::ConfirmLink(GoogleLoginResult::NeedsLinkConfirmation {
                    existing_user_id: user.id,
                    email: owned(email),
                    google_id: owned(google_id),
                }))
            },
            // No existing user - create new one with Google ID
            None => Ok(GoogleLoginStep::CreateUser),
        },
    }
}

/// Confirm linking a Google account to an existing user: the user must exist, and
/// the Google account must not be linked to someone else.
pub fn check_google_link(
    user: &Option<DomainEndUserProfile>,
    linked: &Option<DomainEndUserProfile>,
    existing_user_id: u128,
) -> (r: Result<(), AppError>)
    ensures
        user is None ==> r == Err::<(), AppError>(AppError::NotFound),
        user is Some && linked is Some && linked.unwrap().id != existing_user_id ==> (r matches Err(
            AppError::InvalidInput(m),
        ) && m@ == "This Google account is already linked to a different user"@),
        user is Some && !(linked is Some && linked.unwrap().id != existing_user_id) ==> r is Ok,
{
    if user.is_none() {
        return Err(AppError::NotFound);
    }
    match linked {
        Some(l) => {
            if l.id != existing_user_id {
                return Err(AppError::InvalidInput(
                    "This Google account is already linked to a different user".to_owned(),
                ));
            }
            Ok(())
        },
        None => Ok(()),
    }
}

// ============================================================================
// The two-phase exchange of a Google sign-in state
// ============================================================================

/// A stored sign-in state and the Unix second after which it is gone.
#[derive(Debug, Clone)]
pub struct StoredOAuthState {
    pub data: OAuthStateData,
    pub expires_at: i64,
}

/// Store state with domain and PKCE verifier; it expires after `ttl_minutes`.
pub fn store_oauth_state(data: OAuthStateData, now: i64, ttl_minutes: i64) -> (r: StoredOAuthState)
    requires
        i64::MIN <= now + ttl_minutes * 60 <= i64::MAX,
        i64::MIN <= ttl_minutes * 60 <= i64::MAX,
    ensures
        r.data == data,
        r.expires_at == now + ttl_minutes * 60,
{
    StoredOAuthState { data, expires_at: now + ttl_minutes * 60 }
}

/// Whether a state is being exchanged.
pub open spec fn in_use(data: OAuthStateData) -> bool {
    data.status@ == "in_use"@
}

/// The instant a state in use was marked at (0 when not recorded).
pub open spec fn marked_at_of(data: OAuthStateData) -> i64 {
    match data.marked_at {
        Some(t) => t,
        None => 0,
    }
}

/// The time arithmetic of marking a state cannot overflow.
pub open spec fn mark_in_range(slot: Option<StoredOAuthState>, now: i64, retry_window_secs: i64) -> bool {
    &&& i64::MIN <= now + retry_window_secs <= i64::MAX
    &&& i64::MIN <= now + retry_window_secs + 30 <= i64::MAX
    &&& slot matches Some(s) ==> i64::MIN <= now - marked_at_of(s.data) <= i64::MAX
}

/// Mark state as "in_use" (two-phase exchange), refreshing its expiry so that the
/// retry window is available. A missing or expired state is not found (an
/// expired one is dropped); a state already in use may be taken again within the
/// retry window of its marking, after which the window has expired; a pending
/// state becomes in use, marked now.
pub fn mark_state_in_use(slot: Option<StoredOAuthState>, now: i64, retry_window_secs: i64) -> (r: (Option<StoredOAuthState>, MarkStateResult))
    requires
        mark_in_range(slot, now, retry_window_secs),
    ensures
        slot is None ==> r.0 is None && r.1 matches MarkStateResult::NotFound,
        slot is Some && now > slot.unwrap().expires_at ==> r.0 is None && r.1 matches MarkStateResult::NotFound,
        slot is Some && now <= slot.unwrap().expires_at && in_use(slot.unwrap().data) && now - marked_at_of(
            slot.unwrap().data,
        ) > retry_window_secs ==> r.0 == slot && r.1 matches MarkStateResult::RetryWindowExpired,
        slot is Some && now <= slot.unwrap().expires_at && in_use(slot.unwrap().data) && now - marked_at_of(
            slot.unwrap().data,
        ) <= retry_window_secs ==> ({
            let s = slot.unwrap();
            &&& r.0 matches Some(t) && t.data == s.data && t.expires_at == now + retry_window_secs + 30
            &&& r.1 matches MarkStateResult::Success(d) && d == s.data
        }),
        slot is Some && now <= slot.unwrap().expires_at && !in_use(slot.unwrap().data) ==> ({
            let s = slot.unwrap();
            &&& r.0 matches Some(t) && t.data.domain == s.data.domain && t.data.code_verifier
                == s.data.code_verifier && t.data.status@ == "in_use"@ && t.data.marked_at == Some(now)
                && t.expires_at == now + retry_window_secs + 30
            &&& r.1 matches MarkStateResult::Success(d) && d.domain == s.data.domain && d.code_verifier
                == s.data.code_verifier && d.status@ == "in_use"@ && d.marked_at == Some(now)
        }),
{
    match slot {
        None => (None, MarkStateResult::NotFound),
        Some(s) => {
            if now > s.expires_at {
                return (None, MarkStateResult::NotFound);
            }
            if str_eq(s.data.status.as_str(), "in_use") {
                let marked_at: i64 = match s.data.marked_at {
                    Some(t) => t,
                    None => 0,
                };
                if now - marked_at > retry_window_secs {
                    return (Some(s), MarkStateResult::RetryWindowExpired);
                }
                let data: OAuthStateData = s.data;
                let result: OAuthStateData = OAuthStateData {
                    domain: data.domain.clone(),
                    code_verifier: data.code_verifier.clone(),
                    status: data.status.clone(),
                    marked_at: data.marked_at,
                };
                return (
                    Some(StoredOAuthState { data, expires_at: now + retry_window_secs + 30 }),
                    MarkStateResult::Success(result),
                );
            }
            let data: OAuthStateData = OAuthStateData {
                domain: s.data.domain,
                code_verifier: s.data.code_verifier,
                status: owned("in_use"),
                marked_at: Some(now),
            };
            let result: OAuthStateData = OAuthStateData {
                domain: data.domain.clone(),
                code_verifier: data.code_verifier.clone(),
                status: data.status.clone(),
                marked_at: data.marked_at,
            };
            (Some(StoredOAuthState { data, expires_at: now + retry_window_secs + 30 }), MarkStateResult::Success(result))
        },
    }
}

/// A state marked at `t` can be taken again at any later time within the retry
/// window, and no longer once the window has passed.
pub proof fn lemma_retry_window(
    s: StoredOAuthState,
    t: i64,
    later: i64,
    retry_window_secs: i64,
)
    requires
        !in_use(s.data),
        t <= s.expires_at,
        t <= later,
        0 <= retry_window_secs,
        mark_in_range(Some(s), t, retry_window_secs),
    ensures
        ({
            let marked = StoredOAuthState {
                data: OAuthStateData {
                    domain: s.data.domain,
                    code_verifier: s.data.code_verifier,
                    status: s.data.status,
                    marked_at: Some(t),
                },
                expires_at: (t + retry_window_secs + 30) as i64,
            };
            &&& later - t <= retry_window_secs ==> later <= marked.expires_at
            &&& later - t > retry_window_secs ==> later - marked_at_of(marked.data) > retry_window_secs
        }),
{
}

// ============================================================================
// Owners managing end users
// ============================================================================

/// The end user an owner acts on must belong to the domain; else not found.
pub fn user_in_domain(found: Option<DomainEndUserProfile>, domain_id: u128) -> (r: Result<DomainEndUserProfile, AppError>)
    ensures
        found is Some && found.unwrap().domain_id == domain_id ==> r == Ok::<
            DomainEndUserProfile,
            AppError,
        >(found.unwrap()),
        !(found is Some && found.unwrap().domain_id == domain_id) ==> r == Err::<
            DomainEndUserProfile,
            AppError,
        >(AppError::NotFound),
{
    match found {
        None => Err(AppError::NotFound),
        Some(u) => {
            if u.domain_id != domain_id {
                return Err(AppError::NotFound);
            }
            Ok(u)
        },
    }
}

/// What an owner does to an end user's account.
#[derive(Debug, Clone, Copy, PartialEq, Eq, Structural)]
pub enum AccountAction {
    Freeze,
    Unfreeze,
    Whitelist,
    Unwhitelist,
}

/// The effects of an account action: the flag stored, and, when the action
/// changes the account, the e-mail sent and the event raised.
#[derive(Debug, Clone)]
pub struct AccountChange {
    /// The new frozen flag, for freezing and unfreezing.
    pub set_frozen: Option<bool>,
    /// The new whitelist flag, for whitelisting and removing from the whitelist.
    pub set_whitelisted: Option<bool>,
    pub email: Option<EmailMessage>,
    pub event: Option<WebhookEventType>,
}

/// Whether an action changes the account: freezing an end user who is not
/// frozen, unfreezing one who is, and so on.
pub open spec fn action_changes(action: AccountAction, user: DomainEndUserProfile) -> bool {
    match action {
        AccountAction::Freeze => !user.is_frozen,
        AccountAction::Unfreeze => user.is_frozen,
        AccountAction::Whitelist => !user.is_whitelisted,
        AccountAction::Unwhitelist => user.is_whitelisted,
    }
}

/// The effects of an owner's action on an end user of `domain`: the flag is
/// always stored; only an action that changes the account notifies, by e-mail
/// (suspended, restored, approved; none for removal from the whitelist) and by a
/// webhook event.
pub fn plan_account_action(action: AccountAction, user: &DomainEndUserProfile, domain: &str) -> (r: AccountChange)
    ensures
        r.set_frozen == match action {
            AccountAction::Freeze => Some(true),
            AccountAction::Unfreeze => Some(false),
            _ => None::<bool>,
        },
        r.set_whitelisted == match action {
            AccountAction::Whitelist => Some(true),
            AccountAction::Unwhitelist => Some(false),
            _ => None::<bool>,
        },
        !action_changes(action, *user) ==> r.email is None && r.event is None,
        action_changes(action, *user) ==> r.event == Some(
            match action {
                AccountAction::Freeze => WebhookEventType::UserFrozen,
                AccountAction::Unfreeze => WebhookEventType::UserUnfrozen,
                AccountAction::Whitelist => WebhookEventType::UserWhitelisted,
                AccountAction::Unwhitelist => WebhookEventType::UserUnwhitelisted,
            },
        ),
        action_changes(action, *user) && action == AccountAction::Freeze ==> (r.email matches Some(e)
            && e.subject@ == account_frozen_email_subject(domain@) && e.html@
            == account_frozen_email_html(login_origin(domain@), domain@)),
        action_changes(action, *user) && action == AccountAction::Unfreeze ==> (r.email matches Some(e)
            && e.subject@ == account_unfrozen_email_subject(domain@) && e.html@
            == account_unfrozen_email_html(login_origin(domain@), domain@, login_page(domain@))),
        action_changes(action, *user) && action == AccountAction::Whitelist ==> (r.email matches Some(e)
            && e.subject@ == account_whitelisted_email_subject(domain@) && e.html@
            == account_whitelisted_email_html(login_origin(domain@), domain@, login_page(domain@))),
        action == AccountAction::Unwhitelist ==> r.email is None,
{
    let origin: String = app_origin(domain);
    let login: String = login_url(domain);
    match action {
        AccountAction::Freeze => {
            // Only send email if user wasn't already frozen
            if user.is_frozen {
                return AccountChange { set_frozen: Some(true), set_whitelisted: None, email: None, event: None };
            }
            let (subject, html) = account_frozen_email(origin.as_str(), domain);
            AccountChange {
                set_frozen: Some(true),
                set_whitelisted: None,
                email: Some(EmailMessage { subject, html }),
                event: Some(WebhookEventType::UserFrozen),
            }
        },
        AccountAction::Unfreeze => {
            // Only send email if user was frozen
            if !user.is_frozen {
                return AccountChange { set_frozen: Some(false), set_whitelisted: None, email: None, event: None };
            }
            let (subject, html) = account_unfrozen_email(origin.as_str(), domain, login.as_str());
            AccountChange {
                set_frozen: Some(false),
                set_whitelisted: None,
                email: Some(EmailMessage { subject, html }),
                event: Some(WebhookEventType::UserUnfrozen),
            }
        },
        AccountAction::Whitelist => {
            // Only send email if user wasn't already whitelisted
            if user.is_whitelisted {
                return AccountChange { set_frozen: None, set_whitelisted: Some(true), email: None, event: None };
            }
            let (subject, html) = account_whitelisted_email(origin.as_str(), domain, login.as_str());
            AccountChange {
                set_frozen: None,
                set_whitelisted: Some(true),
                email: Some(EmailMessage { subject, html }),
                event: Some(WebhookEventType::UserWhitelisted),
            }
        },
        AccountAction::Unwhitelist => {
            if !user.is_whitelisted {
                return AccountChange { set_frozen: None, set_whitelisted: Some(false), email: None, event: None };
            }
            AccountChange {
                set_frozen: None,
                set_whitelisted: Some(false),
                email: None,
                event: Some(WebhookEventType::UserUnwhitelisted),
            }
        },
    }
}

/// Repeating an action changes nothing more: once an action has been applied, the
/// same action again sends no e-mail and raises no event.
pub proof fn lemma_account_action_idempotent(action: AccountAction, user: DomainEndUserProfile)
    ensures
        ({
            let after = DomainEndUserProfile {
                is_frozen: match action {
                    AccountAction::Freeze => true,
                    AccountAction::Unfreeze => false,
                    _ => user.is_frozen,
                },
                is_whitelisted: match action {
                    AccountAction::Whitelist => true,
                    AccountAction::Unwhitelist => false,
                    _ => user.is_whitelisted,
                },
                ..user
            };
            !action_changes(action, after)
        }),
{
}

/// An end user can be invited only when nobody has the address yet.
pub fn check_invite(existing: &Option<DomainEndUserProfile>) -> (r: Result<(), AppError>)
    ensures
        existing is None ==> r is Ok,
        existing is Some ==> (r matches Err(AppError::InvalidInput(m)) && m@ == "User already exists"@),
{
    if existing.is_some() {
        return Err(AppError::InvalidInput("User already exists".to_owned()));
    }
    Ok(())
}

/// The invitation e-mail sent to an invited end user.
pub fn invite_email(domain: &str) -> (r: EmailMessage)
    ensures
        r.subject@ == account_invited_email_subject(domain@),
        r.html@ == account_invited_email_html(login_origin(domain@), domain@, login_page(domain@)),
{
    let origin: String = app_origin(domain);
    let login: String = login_url(domain);
    let (subject, html) = account_invited_email(origin.as_str(), domain, login.as_str());
    EmailMessage { subject, html }
}

} // verus!
