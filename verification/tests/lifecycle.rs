use hcop::{Delivery, HCopError, Hcop, TaskResult, TaskStatus};

fn answered(body: &str) -> Delivery {
    Delivery::Answered { status: 200, body: body.as_bytes().to_vec() }
}

#[test]
fn task_is_created_polled_and_completed() {
    let client = Hcop::new("KEY".to_string());
    let task = client
        .create_hcaptcha_task(&answered(r#"{"error":false,"task_id":"abc123"}"#))
        .unwrap();
    assert_eq!(task.task_id(), "abc123");

    let replies = [
        r#"{"error":false,"task":{"refunded":false,"state":"processing"}}"#,
        r#"{"error":false,"task":{"refunded":false,"state":"processing"}}"#,
        r#"{"error":false,"task":{"captcha_key":"TOKEN","refunded":false,"state":"completed"}}"#,
        r#"{"error":false,"task":{"refunded":true,"state":"error"}}"#,
    ];
    let mut polls = 0;
    let mut last: Option<TaskResult> = None;
    for reply in replies {
        let polled = task.get_result(&answered(reply)).unwrap();
        polls += 1;
        let done = polled.status.is_terminal();
        last = Some(polled);
        if done {
            break;
        }
    }
    let last = last.unwrap();
    assert_eq!(polls, 3);
    assert_eq!(last.status, TaskStatus::Completed);
    assert_eq!(last.captcha_key, Some("TOKEN".to_string()));
    assert!(!last.refunded);
}

#[test]
fn task_creation_does_not_depend_on_rqdata() {
    let client = Hcop::new("KEY".to_string());
    for rqdata in [None, Some("x".to_string())] {
        let _request = client.create_hcaptcha_task_request(
            "site-key".to_string(),
            "example.com".to_string(),
            "proxy".to_string(),
            rqdata,
        );
        let task = client
            .create_hcaptcha_task(&answered(r#"{"error":false,"task_id":"abc123"}"#))
            .unwrap();
        assert_eq!(task.task_id(), "abc123");
    }
}

#[test]
fn polls_are_independent_of_each_other() {
    let client = Hcop::new("KEY".to_string());
    let task = client
        .create_hcaptcha_task(&answered(r#"{"error":false,"task_id":"t"}"#))
        .unwrap();
    let completed =
        answered(r#"{"error":false,"task":{"captcha_key":"K","refunded":false,"state":"completed"}}"#);
    let processing = answered(r#"{"error":false,"task":{"refunded":false,"state":"processing"}}"#);
    assert_eq!(task.get_result(&completed).unwrap().status, TaskStatus::Completed);
    assert_eq!(task.get_result(&processing).unwrap().status, TaskStatus::Processing);
    assert_eq!(task.get_result(&completed).unwrap().captcha_key, Some("K".to_string()));
}

#[test]
fn only_processing_is_not_terminal() {
    assert!(!TaskStatus::Processing.is_terminal());
    assert!(TaskStatus::Completed.is_terminal());
    assert!(TaskStatus::Error.is_terminal());
}

#[test]
fn status_words_are_exact() {
    assert_eq!(TaskStatus::parse("processing").unwrap(), TaskStatus::Processing);
    assert_eq!(TaskStatus::parse("completed").unwrap(), TaskStatus::Completed);
    assert_eq!(TaskStatus::parse("error").unwrap(), TaskStatus::Error);
    for word in ["", "Error", "complete", "completed\n", "processing "] {
        match TaskStatus::parse(word) {
            Ok(_) => panic!("{:?} is no state", word),
            Err(error) => assert_eq!(error.message, format!("Unknown status: {}", word)),
        }
    }
}

#[test]
fn error_shows_its_message() {
    let error = HCopError::new("Invalid API key");
    assert_eq!(error.message, "Invalid API key");
    assert_eq!(error.to_string(), "Invalid API key");
    assert_eq!(format!("{:?}", error), "HCopError { message: \"Invalid API key\" }");
    assert_eq!(
        HCopError::malformed_field("task.state").to_string(),
        "Malformed response: missing or invalid field task.state"
    );
    assert_eq!(HCopError::unknown_status("done").to_string(), "Unknown status: done");
}

#[test]
fn feur() {
    let hcop = Hcop::new("YOUR_API_KEY".to_string());
    let account = answered(
        r#"{"error":false,"data":{"balance":12.5,"max_threads":5,"rank":"gold",
            "running_threads":2,"username":"alice"}}"#,
    );
    match hcop.get_user_data(&account) {
        Ok(user_data) => {
            println!("{} has {}$", user_data.username, f64::from_bits(user_data.balance_bits));
        }
        Err(e) => {
            panic!("{}", e.message);
        }
    }

    let request = hcop.create_hcaptcha_task_request(
        "a5f74b19-9e45-40e0-b45d-47ff91b7a6c2".to_string(),
        "accounts.hcaptcha.com".to_string(),
        "IP:PORT OR USER:PASS@IP:PORT".to_string(),
        None,
    );
    assert_eq!(request.payload["api_key"], "YOUR_API_KEY");
    assert_eq!(request.payload["data"]["sitekey"], "a5f74b19-9e45-40e0-b45d-47ff91b7a6c2");
    assert_eq!(request.payload["data"]["url"], "accounts.hcaptcha.com");
    assert_eq!(request.payload["data"]["proxy"], "IP:PORT OR USER:PASS@IP:PORT");
    let task = hcop.create_hcaptcha_task(&answered(r#"{"error":false,"task_id":"abc123"}"#));

    let mut replies = vec![
        r#"{"error":false,"task":{"captcha_key":"TOKEN","refunded":false,"state":"completed"}}"#,
        r#"{"error":false,"task":{"refunded":false,"state":"processing"}}"#,
    ];
    match task {
        Ok(task) => {
            println!("Task ID: {}", task.task_id());

            loop {
                let result = task.get_result(&answered(replies.pop().unwrap()));
                match result {
                    Ok(result) => {
                        if result.status == TaskStatus::Completed {
                            break;
                        }
                    }
                    Err(e) => {
                        panic!("{}", e.message);
                    }
                }
            }
        }
        Err(e) => {
            panic!("{}", e.message);
        }
    }
    assert!(replies.is_empty());
}
