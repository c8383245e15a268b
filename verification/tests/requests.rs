use hevy_bridge::requests::{Method, Request, API_KEY_HEADER, BASE_URL};

fn pairs(items: &[(&str, &str)]) -> Vec<(String, String)> {
    items.iter().map(|(k, v)| (k.to_string(), v.to_string())).collect()
}

fn request(method: Method, path: &str, route: &str, subject: &str, query: &[(&str, &str)]) -> Request {
    Request {
        method,
        path: path.to_string(),
        route: route.to_string(),
        subject: subject.to_string(),
        query: pairs(query),
    }
}

#[test]
fn lists_are_asked_for_page_by_page() {
    let page = [("page", "2"), ("pageSize", "10")];
    assert_eq!(
        Request::list_workouts(2, 10),
        request(Method::Get, "/workouts", "/workouts", "workouts", &page)
    );
    assert_eq!(
        Request::list_routines(2, 10),
        request(Method::Get, "/routines", "/routines", "routines", &page)
    );
    assert_eq!(
        Request::list_exercise_templates(2, 10),
        request(Method::Get, "/exercise_templates", "/exercise_templates", "exercise templates", &page)
    );
    assert_eq!(
        Request::list_routine_folders(2, 10),
        request(Method::Get, "/routine_folders", "/routine_folders", "routine folders", &page)
    );
    assert_eq!(
        Request::list_workouts(0, u32::MAX).query,
        pairs(&[("page", "0"), ("pageSize", "4294967295")])
    );
}

#[test]
fn single_things_are_asked_for_by_identifier() {
    assert_eq!(
        Request::get_workout("w-1"),
        request(Method::Get, "/workouts/w-1", "/workouts/{id}", "workout", &[])
    );
    assert_eq!(
        Request::get_routine("r-1"),
        request(Method::Get, "/routines/r-1", "/routines/{id}", "routine", &[])
    );
    assert_eq!(
        Request::get_exercise_template("D04AC939"),
        request(
            Method::Get,
            "/exercise_templates/D04AC939",
            "/exercise_templates/{id}",
            "exercise template",
            &[]
        )
    );
    assert_eq!(
        Request::get_routine_folder("42"),
        request(Method::Get, "/routine_folders/42", "/routine_folders/{id}", "routine folder", &[])
    );
    assert_eq!(
        Request::workout_count(),
        request(Method::Get, "/workouts/count", "/workouts/count", "workout count", &[])
    );
    assert_eq!(
        Request::user_info(),
        request(Method::Get, "/user/info", "/user/info", "user info", &[])
    );
}

#[test]
fn things_are_created_and_updated() {
    assert_eq!(
        Request::create_workout(),
        request(Method::Post, "/workouts", "/workouts", "created workout", &[])
    );
    assert_eq!(
        Request::update_workout("w-1"),
        request(Method::Put, "/workouts/w-1", "/workouts/{id}", "updated workout", &[])
    );
    assert_eq!(
        Request::create_routine(),
        request(Method::Post, "/routines", "/routines", "created routine", &[])
    );
    assert_eq!(
        Request::update_routine("r-1"),
        request(Method::Put, "/routines/r-1", "/routines/{id}", "updated routine", &[])
    );
    assert_eq!(
        Request::create_exercise_template(),
        request(
            Method::Post,
            "/exercise_templates",
            "/exercise_templates",
            "create exercise template",
            &[]
        )
    );
    assert_eq!(
        Request::create_routine_folder(),
        request(Method::Post, "/routine_folders", "/routine_folders", "created routine folder", &[])
    );
}

#[test]
fn events_are_asked_for_since_a_time_only_where_one_is_given() {
    assert_eq!(
        Request::workout_events(1, 5, None),
        request(
            Method::Get,
            "/workouts/events",
            "/workouts/events",
            "workout events",
            &[("page", "1"), ("pageSize", "5")]
        )
    );
    assert_eq!(
        Request::workout_events(1, 5, Some("2024-01-01T00:00:00Z")).query,
        pairs(&[("page", "1"), ("pageSize", "5"), ("since", "2024-01-01T00:00:00Z")])
    );
}

#[test]
fn history_is_asked_for_between_the_times_that_are_given() {
    assert_eq!(
        Request::exercise_history("D04AC939", None, None),
        request(
            Method::Get,
            "/exercise_history/D04AC939",
            "/exercise_history/{id}",
            "exercise history",
            &[]
        )
    );
    assert_eq!(
        Request::exercise_history("D04AC939", Some("a"), None).query,
        pairs(&[("start_date", "a")])
    );
    assert_eq!(
        Request::exercise_history("D04AC939", None, Some("b")).query,
        pairs(&[("end_date", "b")])
    );
    assert_eq!(
        Request::exercise_history("D04AC939", Some("a"), Some("b")).query,
        pairs(&[("start_date", "a"), ("end_date", "b")])
    );
}

#[test]
fn requests_go_below_the_base_address() {
    assert_eq!(BASE_URL, "https://api.hevyapp.com/v1");
    assert_eq!(API_KEY_HEADER, "api-key");
    assert_eq!(Request::get_workout("w-1").url(), "https://api.hevyapp.com/v1/workouts/w-1");
    assert_eq!(Request::user_info().url(), "https://api.hevyapp.com/v1/user/info");
}

#[test]
fn methods_have_names() {
    assert_eq!(Method::Get.name(), "GET");
    assert_eq!(Method::Post.name(), "POST");
    assert_eq!(Method::Put.name(), "PUT");
}

#[test]
fn failures_are_told_in_the_requests_words() {
    let get = Request::get_workout("w-1");
    assert_eq!(get.send_failure(), "Failed to send request to GET /workouts/{id}");
    assert_eq!(
        get.status_failure("404 Not Found", "{\"error\":\"no such workout\"}"),
        "GET /workouts/w-1 returned 404 Not Found: {\"error\":\"no such workout\"}"
    );
    assert_eq!(get.decode_failure(), "Failed to parse workout response");

    let put = Request::update_routine("r-1");
    assert_eq!(put.send_failure(), "Failed to send request to PUT /routines/{id}");
    assert_eq!(put.status_failure("401 Unauthorized", ""), "PUT /routines/r-1 returned 401 Unauthorized: ");
    assert_eq!(put.decode_failure(), "Failed to parse updated routine response");

    let post = Request::create_exercise_template();
    assert_eq!(post.send_failure(), "Failed to send request to POST /exercise_templates");
    assert_eq!(post.decode_failure(), "Failed to parse create exercise template response");

    let list = Request::list_workouts(1, 5);
    assert_eq!(list.send_failure(), "Failed to send request to GET /workouts");
    assert_eq!(list.status_failure("500 Internal Server Error", "x"), "GET /workouts returned 500 Internal Server Error: x");
    assert_eq!(list.decode_failure(), "Failed to parse workouts response");
}
