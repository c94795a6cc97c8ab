use gideon_tasks_api::auth::middleware::{extract_bearer_token, AdminUser, AuthUser};
use gideon_tasks_api::errors::AppError;
use gideon_tasks_api::models::invite::CreateInviteRequest;
use gideon_tasks_api::models::review::CreateReviewRequest;
use gideon_tasks_api::models::task::TaskStatus;
use gideon_tasks_api::models::task_application::CreateApplicationRequest;
use gideon_tasks_api::models::task_message::CreateMessageRequest;
use gideon_tasks_api::routes::applications::{
    check_application, check_application_listing, check_application_message, reject_only, ApplicantFacts,
};
use gideon_tasks_api::routes::attestations::check_confirmation;
use gideon_tasks_api::routes::auth::{
    check_account_active, check_registration, check_verification_code, is_verification_code,
    token_expiry, InviteFacts, LoginRequest, RefreshRequest, RegisterRequest,
};
use gideon_tasks_api::routes::invites::{
    check_quota, generate_invite_code, invite_code_from, invite_is_valid, requested_invites,
    INVITE_ALPHABET,
};
use gideon_tasks_api::routes::messages::{check_list_messages, check_send_message, sanitize_message};
use gideon_tasks_api::routes::reviews::{check_review, check_review_comment, ReviewFacts};
use gideon_tasks_api::routes::tasks::{
    check_new_task, check_update, is_in_person, paginate, paginate_tasks, posting_limit,
    stored_status, NewTask, Page, SubmitTaskRequest,
};
use gideon_tasks_api::routes::users::{
    connect_refresh_url, connect_return_url, ProfileFields, StripeConnectResponse,
    UpdateProfileRequest,
};
use gideon_tasks_api::services::lifecycle::TaskFacts;
use gideon_tasks_api::services::moderation::{ModerationClassifier, ModerationResult};

const REQUESTER: u128 = 11;
const DOER: u128 = 22;
const STRANGER: u128 = 33;

fn user(id: u128, level: i16) -> AuthUser {
    AuthUser { user_id: id, is_admin: false, trust_level: level }
}

fn task(status: TaskStatus) -> TaskFacts {
    TaskFacts { status, requester_id: REQUESTER, assigned_doer_id: Some(DOER), price_cents: 10_000 }
}

fn bad_request(reason: &str) -> AppError {
    AppError::BadRequest(reason.to_string())
}

fn new_task() -> NewTask {
    NewTask { price_cents: 5_000, deadline: 2_000, now: 1_000, in_person: true, has_address: true }
}

#[test]
fn posting_needs_level_one() {
    assert_eq!(
        posting_limit(&user(1, 0)),
        Err(AppError::TrustLevelInsufficient("Trust Level 1 required to post tasks".into()))
    );
    assert_eq!(posting_limit(&user(1, 1)), Ok(2));
    assert_eq!(posting_limit(&user(1, 2)), Ok(10));
    assert_eq!(posting_limit(&user(1, 3)), Ok(25));
    assert_eq!(
        posting_limit(&user(1, 4)),
        Err(AppError::TrustLevelInsufficient("Cannot post tasks at this trust level".into()))
    );
}

#[test]
fn new_task_checks_run_in_order() {
    let actor = user(REQUESTER, 1);
    assert_eq!(check_new_task(&actor, 2, 1, &new_task()), Ok(()));
    let mut everything_wrong = NewTask { price_cents: 100, deadline: 5, now: 5, in_person: true, has_address: false };
    assert_eq!(
        check_new_task(&actor, 2, 2, &everything_wrong),
        Err(bad_request("Maximum active tasks reached (2)"))
    );
    assert_eq!(check_new_task(&actor, 2, 1, &everything_wrong), Err(bad_request("Minimum task price is $5")));
    everything_wrong.price_cents = 50_001;
    assert_eq!(
        check_new_task(&actor, 2, 1, &everything_wrong),
        Err(AppError::TrustLevelInsufficient("Maximum task value at your trust level is $500".into()))
    );
    everything_wrong.price_cents = 50_000;
    assert_eq!(check_new_task(&actor, 2, 1, &everything_wrong), Err(bad_request("Deadline must be in the future")));
    everything_wrong.deadline = 6;
    assert_eq!(
        check_new_task(&actor, 2, 1, &everything_wrong),
        Err(bad_request("Address required for in-person tasks"))
    );
    everything_wrong.in_person = false;
    assert_eq!(check_new_task(&actor, 2, 1, &everything_wrong), Ok(()));
}

#[test]
fn new_task_limits_by_level() {
    let mut wanted = new_task();
    wanted.price_cents = 200_001;
    assert_eq!(
        check_new_task(&user(REQUESTER, 2), 10, 0, &wanted),
        Err(AppError::TrustLevelInsufficient("Maximum task value at your trust level is $2000".into()))
    );
    assert_eq!(check_new_task(&user(REQUESTER, 3), 25, 0, &wanted), Ok(()));
    assert_eq!(
        check_new_task(&user(REQUESTER, 3), 25, 25, &wanted),
        Err(bad_request("Maximum active tasks reached (25)"))
    );
    assert_eq!(
        check_new_task(&user(REQUESTER, 3), -1, 0, &wanted),
        Err(bad_request("Maximum active tasks reached (-1)"))
    );
    assert!(is_in_person("in_person"));
    assert!(!is_in_person("remote"));
    assert!(!is_in_person("In_Person"));
}

#[test]
fn only_drafts_of_ones_own_can_be_edited() {
    let actor = user(REQUESTER, 1);
    assert_eq!(check_update(None, &actor, None), Err(AppError::NotFound("Task not found".into())));
    assert_eq!(
        check_update(Some(&task(TaskStatus::Draft)), &user(STRANGER, 1), None),
        Err(AppError::Forbidden("Not your task".into()))
    );
    assert_eq!(
        check_update(Some(&task(TaskStatus::Published)), &actor, None),
        Err(bad_request("Can only edit draft tasks"))
    );
    assert_eq!(check_update(Some(&task(TaskStatus::Draft)), &actor, None), Ok(10_000));
    assert_eq!(check_update(Some(&task(TaskStatus::Draft)), &actor, Some(500)), Ok(500));
    assert_eq!(
        check_update(Some(&task(TaskStatus::Draft)), &actor, Some(499)),
        Err(bad_request("Minimum task price is $5"))
    );
}

#[test]
fn stored_status_must_be_a_status() {
    assert_eq!(stored_status("submitted"), Ok(TaskStatus::Submitted));
    assert_eq!(stored_status("done"), Err(AppError::Internal("Invalid task status".into())));
}

#[test]
fn pages_and_offsets() {
    assert_eq!(paginate_tasks(None, None), Some(Page { page: 1, per_page: 20, offset: 0 }));
    assert_eq!(paginate_tasks(Some(0), Some(10)), Some(Page { page: 1, per_page: 10, offset: 0 }));
    assert_eq!(paginate_tasks(Some(-7), Some(10)), Some(Page { page: 1, per_page: 10, offset: 0 }));
    assert_eq!(paginate_tasks(Some(4), Some(1_000)), Some(Page { page: 4, per_page: 100, offset: 300 }));
    assert_eq!(paginate_tasks(Some(3), Some(-5)), Some(Page { page: 3, per_page: -5, offset: -10 }));
    assert_eq!(paginate_tasks(Some(i64::MAX), Some(100)), None);
    assert_eq!(paginate(Some(2), None, 500, 50), Some(Page { page: 2, per_page: 50, offset: 50 }));
    assert_eq!(
        paginate(Some(i64::MAX), Some(1), 20, 100),
        Some(Page { page: i64::MAX, per_page: 1, offset: i64::MAX - 1 })
    );
}

fn applicant() -> ApplicantFacts {
    ApplicantFacts { active_tasks: 0, already_applied: false }
}

#[test]
fn application_checks_run_in_order() {
    let doer = user(DOER, 0);
    assert_eq!(check_application(None, &doer, &applicant()), Err(AppError::NotFound("Task not found".into())));
    assert_eq!(
        check_application(Some(&task(TaskStatus::Draft)), &doer, &applicant()),
        Err(bad_request("Can only apply to published tasks"))
    );
    let published = task(TaskStatus::Published);
    assert_eq!(
        check_application(Some(&published), &user(REQUESTER, 3), &applicant()),
        Err(bad_request("Cannot apply to your own task"))
    );
    assert_eq!(
        check_application(Some(&published), &user(DOER, -1), &applicant()),
        Err(AppError::TrustLevelInsufficient("Cannot apply for tasks at this trust level".into()))
    );
    let busy = ApplicantFacts { active_tasks: 2, already_applied: true };
    assert_eq!(
        check_application(Some(&published), &doer, &busy),
        Err(bad_request("Maximum concurrent doer tasks reached (2)"))
    );
    let mut expensive = published;
    expensive.price_cents = 10_001;
    let applied = ApplicantFacts { active_tasks: 1, already_applied: true };
    assert_eq!(
        check_application(Some(&expensive), &doer, &applied),
        Err(AppError::TrustLevelInsufficient("Task value exceeds your trust level maximum ($100)".into()))
    );
    assert_eq!(
        check_application(Some(&published), &doer, &applied),
        Err(AppError::Conflict("Already applied to the task".into()))
    );
    assert_eq!(check_application(Some(&published), &doer, &applicant()), Ok(()));
    assert_eq!(check_application(Some(&expensive), &user(DOER, 1), &applicant()), Ok(()));
}

#[test]
fn application_messages_are_refused_only_when_rejected() {
    let classifier = ModerationClassifier::new().unwrap();
    let none = CreateApplicationRequest { message: None };
    assert_eq!(check_application_message(&classifier, &none), Ok(()));
    let clean = CreateApplicationRequest { message: Some("I have mowed many lawns before".into()) };
    assert_eq!(check_application_message(&classifier, &clean), Ok(()));
    let flagged = CreateApplicationRequest { message: Some("I am discreet".into()) };
    assert_eq!(check_application_message(&classifier, &flagged), Ok(()));
    let rejected = CreateApplicationRequest { message: Some("write to me@example.com".into()) };
    assert_eq!(
        check_application_message(&classifier, &rejected),
        Err(AppError::ContentRejected("contact information not allowed".into()))
    );
    assert_eq!(reject_only(ModerationResult::Clean), Ok(()));
    assert_eq!(reject_only(ModerationResult::Flagged("f".into())), Ok(()));
    assert_eq!(reject_only(ModerationResult::Rejected("r".into())), Err(AppError::ContentRejected("r".into())));
}

#[test]
fn applications_are_listed_for_the_requester_only() {
    let published = task(TaskStatus::Published);
    assert_eq!(check_application_listing(Some(&published), &user(REQUESTER, 0)), Ok(()));
    assert_eq!(
        check_application_listing(Some(&published), &user(DOER, 0)),
        Err(AppError::Forbidden("Not your task".into()))
    );
    assert_eq!(check_application_listing(None, &user(DOER, 0)), Err(AppError::NotFound("Task not found".into())));
}

fn review(reliability: i16, quality: i16, communication: i16, integrity: i16) -> CreateReviewRequest {
    CreateReviewRequest { reliability, quality, communication, integrity, comment: None }
}

#[test]
fn review_scores_must_be_on_the_scale() {
    assert_eq!(review(1, 5, 3, 4).validate(), Ok(()));
    assert_eq!(review(0, 6, 0, 6).validate(), Err("reliability must be between 1 and 5".to_string()));
    assert_eq!(review(1, 6, 0, 6).validate(), Err("quality must be between 1 and 5".to_string()));
    assert_eq!(review(1, 5, 0, 6).validate(), Err("communication must be between 1 and 5".to_string()));
    assert_eq!(review(1, 5, 5, 6).validate(), Err("integrity must be between 1 and 5".to_string()));
    assert_eq!(review(5, 5, 5, -1).validate(), Err("integrity must be between 1 and 5".to_string()));
}

#[test]
fn positive_reviews_have_every_score_at_three_or_more() {
    assert!(review(3, 3, 3, 3).is_positive());
    assert!(review(5, 4, 3, 5).is_positive());
    assert!(!review(2, 5, 5, 5).is_positive());
    assert!(!review(5, 2, 5, 5).is_positive());
    assert!(!review(5, 5, 2, 5).is_positive());
    assert!(!review(5, 5, 5, 2).is_positive());
}

#[test]
fn review_checks_run_in_order() {
    let week = 7 * 86_400;
    let open = ReviewFacts { task_updated_at: 1_000, now: 1_000 + week, already_reviewed: false };
    let closed = ReviewFacts { task_updated_at: 1_000, now: 1_001 + week, already_reviewed: true };
    let completed = task(TaskStatus::Completed);
    let requester = user(REQUESTER, 0);
    assert_eq!(
        check_review(&review(0, 1, 1, 1), None, &requester, &closed),
        Err(bad_request("reliability must be between 1 and 5"))
    );
    assert_eq!(check_review(&review(1, 1, 1, 1), None, &requester, &closed), Err(AppError::NotFound("Task not found".into())));
    assert_eq!(
        check_review(&review(1, 1, 1, 1), Some(&task(TaskStatus::Submitted)), &user(STRANGER, 0), &closed),
        Err(bad_request("Reviews can only be left after task completion"))
    );
    assert_eq!(
        check_review(&review(1, 1, 1, 1), Some(&completed), &user(STRANGER, 0), &closed),
        Err(AppError::Forbidden("Not a participant in the task".into()))
    );
    assert_eq!(
        check_review(&review(1, 1, 1, 1), Some(&completed), &requester, &closed),
        Err(bad_request("Review window has closed (7 days)"))
    );
    let mut nobody = completed;
    nobody.assigned_doer_id = None;
    assert_eq!(
        check_review(&review(1, 1, 1, 1), Some(&nobody), &requester, &open),
        Err(AppError::Internal("Task has no assigned doer".into()))
    );
    let again = ReviewFacts { already_reviewed: true, ..open };
    assert_eq!(
        check_review(&review(1, 1, 1, 1), Some(&completed), &requester, &again),
        Err(AppError::Conflict("Already reviewed the task".into()))
    );
    // The requester writes about the doer, and the doer about the requester.
    assert_eq!(check_review(&review(1, 1, 1, 1), Some(&completed), &requester, &open), Ok(DOER));
    assert_eq!(check_review(&review(5, 5, 5, 5), Some(&completed), &user(DOER, 0), &open), Ok(REQUESTER));
    let far = ReviewFacts { task_updated_at: i64::MAX, now: i64::MAX, already_reviewed: false };
    assert_eq!(check_review(&review(5, 5, 5, 5), Some(&completed), &user(DOER, 0), &far), Ok(REQUESTER));
}

#[test]
fn review_comments_are_refused_only_when_rejected() {
    let classifier = ModerationClassifier::new().unwrap();
    let mut request = review(5, 5, 5, 5);
    assert_eq!(check_review_comment(&classifier, &request), Ok(()));
    request.comment = Some("Great".into());
    assert_eq!(check_review_comment(&classifier, &request), Ok(()));
    request.comment = Some("Great work, they also offered to sell me weed".into());
    assert_eq!(
        check_review_comment(&classifier, &request),
        Err(AppError::ContentRejected("violates prohibited use policy".into()))
    );
}

#[test]
fn messages_are_for_the_parties_after_assignment() {
    let requester = user(REQUESTER, 0);
    let doer = user(DOER, 0);
    for status in [TaskStatus::Assigned, TaskStatus::InProgress, TaskStatus::Submitted] {
        assert_eq!(check_send_message(Some(&task(status)), &requester), Ok(()));
        assert_eq!(check_list_messages(Some(&task(status)), &doer), Ok(()));
    }
    for status in [TaskStatus::Completed, TaskStatus::Disputed, TaskStatus::Resolved] {
        assert_eq!(
            check_send_message(Some(&task(status)), &doer),
            Err(bad_request("Cannot send messages in current task state"))
        );
        assert_eq!(check_list_messages(Some(&task(status)), &requester), Ok(()));
    }
    for status in [
        TaskStatus::Draft,
        TaskStatus::PendingReview,
        TaskStatus::Published,
        TaskStatus::Cancelled,
        TaskStatus::Expired,
        TaskStatus::Rejected,
    ] {
        assert_eq!(
            check_send_message(Some(&task(status)), &requester),
            Err(bad_request("Cannot send messages in current task state"))
        );
        assert_eq!(
            check_list_messages(Some(&task(status)), &requester),
            Err(bad_request("Messages only available after task assignment"))
        );
    }
    assert_eq!(
        check_send_message(Some(&task(TaskStatus::Draft)), &user(STRANGER, 3)),
        Err(AppError::Forbidden("Not a participant in the task".into()))
    );
    assert_eq!(check_list_messages(None, &doer), Err(AppError::NotFound("Task not found".into())));
    assert_eq!(check_send_message(None, &doer), Err(AppError::NotFound("Task not found".into())));
}

#[test]
fn messages_are_scrubbed_not_refused_for_contact_information() {
    let classifier = ModerationClassifier::new().unwrap();
    let message = |body: &str| CreateMessageRequest { body: body.to_string() };
    assert_eq!(
        sanitize_message(&classifier, &message("I will be there at nine on Saturday morning")),
        Ok("I will be there at nine on Saturday morning".to_string())
    );
    assert_eq!(
        sanitize_message(&classifier, &message("Ring 555-123-4567 when you arrive")),
        Ok("Ring [removed] when you arrive".to_string())
    );
    assert_eq!(sanitize_message(&classifier, &message("ok")), Ok("ok".to_string()));
    assert_eq!(
        sanitize_message(&classifier, &message("Ring 555-123-4567 if you want to buy weed")),
        Err(AppError::ContentRejected("violates prohibited use policy".into()))
    );
    assert_eq!(
        sanitize_message(&classifier, &message("bring the kids, I can babysit")),
        Err(AppError::ContentRejected("references minors as task subjects".into()))
    );
}

fn registration() -> RegisterRequest {
    RegisterRequest {
        invite_code: "ABCD2345".into(),
        legal_first_name: "Ada".into(),
        legal_last_name: "Miller".into(),
        email: "ada@example.org".into(),
        phone: "5550100".into(),
        password: "12345678".into(),
    }
}

#[test]
fn registration_checks_run_in_order() {
    let mut request = registration();
    request.password = "1234567".into();
    let open = InviteFacts { target_email: None };
    let other = InviteFacts { target_email: Some("bob@example.org".into()) };
    let own = InviteFacts { target_email: Some("ada@example.org".into()) };
    assert_eq!(check_registration(&request, None, true, true), Err(bad_request("Invalid or expired invite code")));
    assert_eq!(
        check_registration(&request, Some(&other), true, true),
        Err(bad_request("This invite was issued for a different email address"))
    );
    assert_eq!(
        check_registration(&request, Some(&own), true, true),
        Err(AppError::Conflict("Email already registered".into()))
    );
    assert_eq!(
        check_registration(&request, Some(&open), false, true),
        Err(AppError::Conflict("Phone already registered".into()))
    );
    assert_eq!(
        check_registration(&request, Some(&open), false, false),
        Err(bad_request("Password must be at least 8 characters"))
    );
    assert_eq!(check_registration(&registration(), Some(&open), false, false), Ok(()));
    assert_eq!(check_registration(&registration(), Some(&own), false, false), Ok(()));
    // Length counts bytes: four two-byte letters are enough.
    request.password = "äöüß".into();
    assert_eq!(check_registration(&request, Some(&open), false, false), Ok(()));
}

#[test]
fn plain_requests_hold_what_they_are_given() {
    let login = LoginRequest { email: "ada@example.org".into(), password: "secret".into() };
    assert_eq!(login.clone(), login);
    let refresh = RefreshRequest { refresh_token: "abc".into() };
    assert_eq!(refresh.refresh_token, "abc");
    let submit = SubmitTaskRequest { completion_notes: Some("done".into()) };
    assert_eq!(submit.completion_notes.as_deref(), Some("done"));
    let response = StripeConnectResponse { url: "https://connect.example/onboard".into() };
    assert_eq!(response.url, "https://connect.example/onboard");
}

#[test]
fn verification_codes_are_six_digits() {
    assert!(is_verification_code("000000"));
    assert!(is_verification_code("123456"));
    assert!(!is_verification_code("12345"));
    assert!(!is_verification_code("1234567"));
    assert!(!is_verification_code("12345a"));
    assert!(!is_verification_code("12 456"));
    assert!(!is_verification_code(""));
    assert!(!is_verification_code("１２３４５６"));
    assert!(!is_verification_code("12345é"));
    assert_eq!(check_verification_code("654321"), Ok(()));
    assert_eq!(check_verification_code("65432"), Err(bad_request("Invalid verification code")));
}

#[test]
fn only_active_accounts_sign_in() {
    assert_eq!(check_account_active("active"), Ok(()));
    assert_eq!(check_account_active("suspended"), Err(AppError::Forbidden("Account is suspended".into())));
    assert_eq!(check_account_active("banned"), Err(AppError::Forbidden("Account is banned".into())));
    assert_eq!(check_account_active(""), Err(AppError::Forbidden("Account is ".into())));
}

#[test]
fn token_expiry_is_checked_addition() {
    assert_eq!(token_expiry(1_000, 900), Some(1_900));
    assert_eq!(token_expiry(1_000, -2_000), Some(-1_000));
    assert_eq!(token_expiry(i64::MAX, 1), None);
    assert_eq!(token_expiry(i64::MIN, -1), None);
}

#[test]
fn bearer_tokens() {
    assert_eq!(extract_bearer_token(Some("Bearer abc.def.ghi")), Ok("abc.def.ghi".to_string()));
    assert_eq!(extract_bearer_token(Some("Bearer ")), Ok(String::new()));
    assert_eq!(extract_bearer_token(Some("Bearer  two")), Ok(" two".to_string()));
    assert_eq!(extract_bearer_token(Some("Bearer tökén")), Ok("tökén".to_string()));
    assert_eq!(extract_bearer_token(None), Err(AppError::Unauthorized("Missing Authorization header".into())));
    for header in ["", "Bearer", "bearer abc", "Basic abc", "Bearerabc", " Bearer abc"] {
        assert_eq!(
            extract_bearer_token(Some(header)),
            Err(AppError::Unauthorized("Invalid Authorization header format".into())),
            "{:?}",
            header
        );
    }
}

#[test]
fn admin_guard() {
    let admin = AuthUser { user_id: 1, is_admin: true, trust_level: 2 };
    assert_eq!(AdminUser::from_auth_user(admin), Ok(AdminUser(admin)));
    assert_eq!(
        AdminUser::from_auth_user(user(1, 3)),
        Err(AppError::Forbidden("Admin access required".into()))
    );
}

#[test]
fn invite_counts_and_quota() {
    let asks = |count: Option<i32>| CreateInviteRequest { target_email: None, count };
    assert_eq!(requested_invites(&asks(None)), 1);
    assert_eq!(requested_invites(&asks(Some(7))), 7);
    assert_eq!(requested_invites(&asks(Some(50))), 50);
    assert_eq!(requested_invites(&asks(Some(51))), 50);
    assert_eq!(requested_invites(&asks(Some(-3))), -3);
    assert_eq!(check_quota(5, 5, 10), Ok(()));
    assert_eq!(check_quota(5, 6, 10), Err(bad_request("Invite quota exceeded")));
    assert_eq!(check_quota(i64::MAX, i32::MAX, 10), Err(bad_request("Invite quota exceeded")));
    assert!(invite_is_valid(false, 10, 9));
    assert!(!invite_is_valid(false, 10, 10));
    assert!(!invite_is_valid(true, 10, 9));
}

#[test]
fn invite_codes_spell_their_picks() {
    assert_eq!(INVITE_ALPHABET.len(), 32);
    assert_eq!(invite_code_from(&vec![0, 1, 7, 8, 23, 24, 31, 31]), Some("ABHJZ299".to_string()));
    assert_eq!(invite_code_from(&Vec::new()), Some(String::new()));
    assert_eq!(invite_code_from(&vec![0, 32]), None);
    for _ in 0..50 {
        let code = generate_invite_code();
        assert_eq!(code.chars().count(), 8);
        assert!(code.chars().all(|c| INVITE_ALPHABET.contains(c)));
    }
    let codes: Vec<String> = (0..20).map(|_| generate_invite_code()).collect();
    assert!(codes.iter().any(|c| *c != codes[0]));
}

#[test]
fn only_pending_attestations_are_confirmed() {
    assert_eq!(check_confirmation("pending"), Ok(()));
    assert_eq!(check_confirmation("confirmed"), Err(bad_request("Attestation is already confirmed")));
    assert_eq!(check_confirmation("revoked"), Err(bad_request("Attestation is already revoked")));
}

#[test]
fn profile_edits_replace_what_they_name() {
    let current = ProfileFields {
        legal_first_name: "Ada".into(),
        legal_last_name: "Miller".into(),
        phone: "5550100".into(),
    };
    let nothing = UpdateProfileRequest { legal_first_name: None, legal_last_name: None, phone: None };
    assert_eq!(nothing.apply(current.clone()), current);
    let some = UpdateProfileRequest { legal_first_name: None, legal_last_name: Some("Stone".into()), phone: Some("".into()) };
    assert_eq!(
        some.apply(current),
        ProfileFields { legal_first_name: "Ada".into(), legal_last_name: "Stone".into(), phone: "".into() }
    );
    assert_eq!(connect_return_url("https://tasks.example"), "https://tasks.example/stripe/return");
    assert_eq!(connect_refresh_url("https://tasks.example"), "https://tasks.example/stripe/refresh");
}
