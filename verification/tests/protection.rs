use axum_sqs_lib::auth_claim::{authorize, encode, AuthError, AuthPayload, Claims, Keys};
use axum_sqs_lib::auth_claim_mid::{auth, bind_user, CurrentUser};
use axum_sqs_lib::protected_router::{protected, protected_norm};
use std::cell::Cell;
use std::sync::atomic::{AtomicUsize, Ordering};
use std::sync::Mutex;

const NOW: u64 = 1_700_000_000;

fn claims(sub: &str, company: &str, exp: usize) -> Claims {
    Claims { sub: sub.to_string(), company: company.to_string(), exp }
}

fn bearer(token: &str) -> String {
    format!("Bearer {}", token)
}

fn login(keys: &Keys) -> String {
    let payload = AuthPayload { client_id: "foo".to_string(), client_secret: "bar".to_string() };
    authorize(payload, keys).unwrap().access_token
}

#[test]
fn extraction_returns_the_claims_of_the_bearer_token() {
    let keys = Keys::new(b"secret");
    let token = encode(&claims("alice", "Initech", 1_800_000_000), &keys).unwrap();
    assert_eq!(
        Claims::from_request_parts(Some(&bearer(&token)), &keys, NOW),
        Ok(claims("alice", "Initech", 1_800_000_000))
    );
}

#[test]
fn extraction_accepts_any_case_of_the_scheme_and_blanks_before_the_token() {
    let keys = Keys::new(b"secret");
    let token = encode(&claims("alice", "Initech", 1_800_000_000), &keys).unwrap();
    let expected = Ok(claims("alice", "Initech", 1_800_000_000));
    assert_eq!(Claims::from_request_parts(Some(&format!("bearer {}", token)), &keys, NOW), expected);
    assert_eq!(Claims::from_request_parts(Some(&format!("BEARER   {}", token)), &keys, NOW), expected);
}

#[test]
fn extraction_without_a_header_is_invalid_token() {
    let keys = Keys::new(b"secret");
    assert_eq!(Claims::from_request_parts(None, &keys, NOW), Err(AuthError::InvalidToken));
}

#[test]
fn extraction_with_another_scheme_is_invalid_token() {
    let keys = Keys::new(b"secret");
    let token = login(&keys);
    for value in [
        format!("Basic {}", token),
        format!("Token {}", token),
        format!("Bearer{}", token),
        token.clone(),
        String::new(),
        "Bearer".to_string(),
    ] {
        assert_eq!(Claims::from_request_parts(Some(&value), &keys, NOW), Err(AuthError::InvalidToken));
    }
}

#[test]
fn extraction_of_a_bad_token_is_invalid_token() {
    let keys = Keys::new(b"secret");
    let token = login(&keys);
    let mut tampered = token.clone();
    let last = tampered.pop().unwrap();
    tampered.push(if last == 'A' { 'B' } else { 'A' });
    assert_eq!(Claims::from_request_parts(Some("Bearer "), &keys, NOW), Err(AuthError::InvalidToken));
    assert_eq!(Claims::from_request_parts(Some("Bearer a.b.c"), &keys, NOW), Err(AuthError::InvalidToken));
    assert_eq!(Claims::from_request_parts(Some(&bearer(&tampered)), &keys, NOW), Err(AuthError::InvalidToken));
    assert_eq!(
        Claims::from_request_parts(Some(&bearer(&token)), &Keys::new(b"other"), NOW),
        Err(AuthError::InvalidToken)
    );
    assert_eq!(
        Claims::from_request_parts(Some(&format!("Bearer {} ", token)), &keys, NOW),
        Err(AuthError::InvalidToken)
    );
}

#[test]
fn extraction_of_an_expired_token_is_invalid_token() {
    let keys = Keys::new(b"secret");
    let token = encode(&claims("alice", "Initech", 1000), &keys).unwrap();
    assert_eq!(Claims::from_request_parts(Some(&bearer(&token)), &keys, 999), Ok(claims("alice", "Initech", 1000)));
    assert_eq!(Claims::from_request_parts(Some(&bearer(&token)), &keys, 1000), Err(AuthError::InvalidToken));
    assert_eq!(Claims::from_request_parts(Some(&bearer(&token)), &keys, NOW), Err(AuthError::InvalidToken));
}

#[test]
fn bind_user_binds_the_whole_claim_set() {
    assert_eq!(
        bind_user(Ok(claims("b@b.com", "ACME", 2000000000))),
        Ok(CurrentUser { claims: claims("b@b.com", "ACME", 2000000000) })
    );
    assert_eq!(
        bind_user(Ok(claims("", "", 0))),
        Ok(CurrentUser { claims: claims("", "", 0) })
    );
}

#[test]
fn bind_user_rejects_every_failure_as_unauthorized() {
    for error in [
        AuthError::InvalidToken,
        AuthError::MissingCredentials,
        AuthError::WrongCredentials,
        AuthError::TokenCreation,
    ] {
        assert_eq!(bind_user(Err(error)), Err(401));
    }
}

#[test]
fn wrapped_handler_runs_with_the_user_of_the_token() {
    let keys = Keys::new(b"secret");
    let token = login(&keys);
    let result = auth(Some(&bearer(&token)), &keys, NOW, |user: CurrentUser| user.claims.company);
    assert_eq!(result, Ok("ACME".to_string()));
}

#[test]
fn wrapped_handler_sees_subject_organization_and_expiry() {
    let keys = Keys::new(b"secret");
    let header = bearer(&encode(&claims("alice", "Initech", 1_800_000_000), &keys).unwrap());
    let result = auth(Some(&header), &keys, NOW, |user: CurrentUser| user.claims);
    assert_eq!(result, Ok(claims("alice", "Initech", 1_800_000_000)));
}

#[test]
fn login_token_behind_bearer_passes_the_guard() {
    let keys = Keys::new(b"secret");
    let header = format!("Bearer {}", login(&keys));
    let result = auth(Some(&header), &keys, NOW, |user: CurrentUser| protected(user.claims));
    let text = result.unwrap().unwrap();
    assert_eq!(text, "Welcome to the protected area :)\nYour data:\nsub:b@b.com Company:ACME, exp:2000000000");
    let late = auth(Some(&header), &keys, 2_000_000_000, |user: CurrentUser| protected(user.claims));
    assert_eq!(late, Err(401));
}

#[test]
fn wrapped_handler_runs_exactly_once() {
    let keys = Keys::new(b"secret");
    let token = login(&keys);
    let runs = Cell::new(0u32);
    let result = auth(Some(&bearer(&token)), &keys, NOW, |_user: CurrentUser| {
        runs.set(runs.get() + 1);
        "done"
    });
    assert_eq!(result, Ok("done"));
    assert_eq!(runs.get(), 1);
}

#[test]
fn wrapped_handler_never_runs_without_a_header() {
    let keys = Keys::new(b"secret");
    let runs = Cell::new(0u32);
    let result = auth(None, &keys, NOW, |_user: CurrentUser| {
        runs.set(runs.get() + 1);
        "done"
    });
    assert_eq!(result, Err(401));
    assert_eq!(runs.get(), 0);
}

#[test]
fn wrapped_handler_never_runs_on_any_rejection() {
    let keys = Keys::new(b"secret");
    let token = login(&keys);
    let expired = encode(&claims("alice", "Initech", 1000), &keys).unwrap();
    let foreign = encode(&claims("alice", "Initech", 2000000000), &Keys::new(b"other")).unwrap();
    let runs = Cell::new(0u32);
    for value in [
        String::new(),
        "Bearer ".to_string(),
        "Bearer a.b.c".to_string(),
        format!("Basic {}", token),
        format!("Bearer {}x", token),
        bearer(&expired),
        bearer(&foreign),
    ] {
        let result = auth(Some(&value), &keys, NOW, |_user: CurrentUser| {
            runs.set(runs.get() + 1);
        });
        assert_eq!(result, Err(401));
    }
    assert_eq!(runs.get(), 0);
}

#[test]
fn each_request_sees_only_its_own_identity() {
    let keys = Keys::new(b"secret");
    let first = bearer(&encode(&claims("alice", "Initech", 2000000000), &keys).unwrap());
    let second = bearer(&encode(&claims("bob", "Globex", 2000000000), &keys).unwrap());
    let seen_first = auth(Some(&first), &keys, NOW, |outer: CurrentUser| {
        let seen_second = auth(Some(&second), &keys, NOW, |inner: CurrentUser| inner.claims.company);
        assert_eq!(seen_second, Ok("Globex".to_string()));
        outer.claims.company
    });
    assert_eq!(seen_first, Ok("Initech".to_string()));
}

#[test]
fn interleaved_requests_see_only_their_own_identity() {
    let keys = Keys::new(b"secret");
    let organizations = ["Initech", "Globex", "Umbrella", "Hooli"];
    let headers: Vec<String> = organizations
        .iter()
        .map(|organization| bearer(&encode(&claims("user", organization, 2000000000), &keys).unwrap()))
        .collect();
    let seen: Mutex<Vec<(usize, String)>> = Mutex::new(Vec::new());
    let served = AtomicUsize::new(0);
    for round in 0..50 {
        for offset in 0..organizations.len() {
            let index = (round + offset) % organizations.len();
            let result = auth(Some(&headers[index]), &keys, NOW, |user: CurrentUser| {
                served.fetch_add(1, Ordering::SeqCst);
                seen.lock().unwrap().push((index, user.claims.company.clone()));
                user.claims.company
            });
            assert_eq!(result, Ok(organizations[index].to_string()));
        }
    }
    assert_eq!(served.load(Ordering::SeqCst), 200);
    for (index, name) in seen.lock().unwrap().iter() {
        assert_eq!(name, organizations[*index]);
    }
}

#[test]
fn protected_greets_and_echoes_the_claims() {
    assert_eq!(
        protected(claims("b@b.com", "ACME", 2000000000)),
        Ok("Welcome to the protected area :)\nYour data:\nsub:b@b.com Company:ACME, exp:2000000000".to_string())
    );
}

#[test]
fn protected_norm_returns_the_input() {
    assert_eq!(
        protected_norm(claims("b@b.com", "ACME", 2000000000), "test input".to_string()),
        Ok("test input".to_string())
    );
    assert_eq!(protected_norm(claims("", "", 0), String::new()), Ok(String::new()));
}

#[test]
fn protected_request_with_the_login_token_echoes_the_organization() {
    let keys = Keys::new(b"secret");
    let header = bearer(&login(&keys));
    let response = auth(Some(&header), &keys, NOW, |_user: CurrentUser| {
        Claims::from_request_parts(Some(&header), &keys, NOW).and_then(protected)
    });
    let text = response.unwrap().unwrap();
    assert!(text.contains("Welcome to the protected area"));
    assert!(text.contains("ACME"));
}
