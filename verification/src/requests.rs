//! The requests of the fitness API, described as plain values: method, path
//! and query parameters, and the words in which a failure is told.
//!
//! Nothing is sent from here. A client takes a `Request`, sends it, and
//! uses the request's own words where the sending, the answer's status or
//! the answer's body fails.

use vstd::prelude::*;
use vstd::string::*;
use crate::text::{digits, push_nat};

verus! {

/// The address that every path is below.
pub const BASE_URL: &'static str = "https://api.hevyapp.com/v1";

/// Name of the header that carries the API key.
pub const API_KEY_HEADER: &'static str = "api-key";

/// The HTTP methods that the API is called with.
#[derive(Clone, Copy, Debug, PartialEq, Eq, Structural)]
pub enum Method {
    Get,
    Post,
    Put,
}

/// One request to the API.
#[derive(Clone, Debug, PartialEq, Eq)]
pub struct Request {
    pub method: Method,
    /// The path below the base address, identifiers filled in.
    pub path: String,
    /// The path as failures name it, with `{id}` in place of an identifier.
    pub route: String,
    /// What the answer holds, as failures name it.
    pub subject: String,
    /// The query parameters, in the order they are sent.
    pub query: Vec<(String, String)>,
}

/// What a `Request` stands for in contracts.
pub struct RequestView {
    pub method: Method,
    pub path: Seq<char>,
    pub route: Seq<char>,
    pub subject: Seq<char>,
    pub query: Seq<(Seq<char>, Seq<char>)>,
}

impl View for Request {
    type V = RequestView;

    open spec fn view(&self) -> RequestView {
        RequestView {
            method: self.method,
            path: self.path@,
            route: self.route@,
            subject: self.subject@,
            query: self.query@.map_values(|p: (String, String)| (p.0@, p.1@)),
        }
    }
}

/// The name of a method as it stands in a request line.
pub open spec fn method_name(m: Method) -> Seq<char> {
    match m {
        Method::Get => "GET"@,
        Method::Post => "POST"@,
        Method::Put => "PUT"@,
    }
}

/// A request without query parameters.
pub open spec fn plain(method: Method, path: Seq<char>, route: Seq<char>, subject: Seq<char>) -> RequestView {
    RequestView { method, path, route, subject, query: Seq::empty() }
}

/// A request for one page of a list: the page's number and size are its
/// query parameters, in decimal.
pub open spec fn paged(path: Seq<char>, subject: Seq<char>, page: u32, page_size: u32) -> RequestView {
    RequestView {
        method: Method::Get,
        path,
        route: path,
        subject,
        query: seq![("page"@, digits(page as nat)), ("pageSize"@, digits(page_size as nat))],
    }
}

/// A request for the one thing with identifier `id` below `prefix`.
pub open spec fn by_id(
    method: Method,
    prefix: Seq<char>,
    id: Seq<char>,
    subject: Seq<char>,
) -> RequestView {
    RequestView {
        method,
        path: prefix + id,
        route: prefix + "{id}"@,
        subject,
        query: Seq::empty(),
    }
}

/// The query parameter `name`, sent only where it has a value.
pub open spec fn optional(name: Seq<char>, value: Option<Seq<char>>) -> Seq<(Seq<char>, Seq<char>)> {
    match value {
        Some(v) => seq![(name, v)],
        None => Seq::empty(),
    }
}

/// The text of an optional string slice.
pub open spec fn slice_text(s: Option<&str>) -> Option<Seq<char>> {
    match s {
        Some(t) => Some(t@),
        None => None,
    }
}

/// The address a request goes to.
pub open spec fn url_of(r: RequestView) -> Seq<char> {
    BASE_URL@ + r.path
}

/// What is said where a request could not be sent.
pub open spec fn send_failure_of(r: RequestView) -> Seq<char> {
    "Failed to send request to "@ + method_name(r.method) + seq![' '] + r.route
}

/// What is said where the answer's status is not a success.
pub open spec fn status_failure_of(r: RequestView, status: Seq<char>, body: Seq<char>) -> Seq<char> {
    method_name(r.method) + seq![' '] + r.path + " returned "@ + status + seq![':', ' '] + body
}

/// What is said where the answer's body could not be read.
pub open spec fn decode_failure_of(r: RequestView) -> Seq<char> {
    "Failed to parse "@ + r.subject + " response"@
}

impl Method {
    /// The method's name as it stands in a request line.
    pub fn name(self) -> (s: &'static str)
        ensures
            s@ == method_name(self),
    {
        match self {
            Method::Get => "GET",
            Method::Post => "POST",
            Method::Put => "PUT",
        }
    }
}

fn number(n: u32) -> (s: String)
    ensures
        s@ == digits(n as nat),
{
    let mut s = String::new();
    push_nat(&mut s, n as u64);
    assert(s@ =~= digits(n as nat));
    s
}

fn parameter(name: &str, value: String) -> (p: (String, String))
    ensures
        p.0@ == name@,
        p.1@ == value@,
{
    (name.to_owned(), value)
}

fn make_plain(method: Method, path: &str, subject: &str) -> (r: Request)
    ensures
        r@ == plain(method, path@, path@, subject@),
{
    let r = Request {
        method,
        path: path.to_owned(),
        route: path.to_owned(),
        subject: subject.to_owned(),
        query: Vec::new(),
    };
    assert(r@.query =~= Seq::empty());
    r
}

fn make_paged(path: &str, subject: &str, page: u32, page_size: u32) -> (r: Request)
    ensures
        r@ == paged(path@, subject@, page, page_size),
{
    let mut query: Vec<(String, String)> = Vec::new();
    query.push(parameter("page", number(page)));
    query.push(parameter("pageSize", number(page_size)));
    let r = Request {
        method: Method::Get,
        path: path.to_owned(),
        route: path.to_owned(),
        subject: subject.to_owned(),
        query,
    };
    assert(r@.query =~= paged(path@, subject@, page, page_size).query);
    r
}

fn make_by_id(method: Method, prefix: &str, id: &str, subject: &str) -> (r: Request)
    ensures
        r@ == by_id(method, prefix@, id@, subject@),
{
    let mut path = prefix.to_owned();
    path.append(id);
    let mut route = prefix.to_owned();
    route.append("{id}");
    let r = Request { method, path, route, subject: subject.to_owned(), query: Vec::new() };
    assert(r@.query =~= Seq::empty());
    r
}

fn push_optional(query: &mut Vec<(String, String)>, name: &str, value: Option<&str>)
    ensures
        final(query)@.map_values(|p: (String, String)| (p.0@, p.1@)) == old(query)@.map_values(
            |p: (String, String)| (p.0@, p.1@),
        ) + optional(name@, slice_text(value)),
{
    match value {
        Some(v) => {
            query.push(parameter(name, v.to_owned()));
        },
        None => {},
    }
    assert(query@.map_values(|p: (String, String)| (p.0@, p.1@)) =~= old(query)@.map_values(
        |p: (String, String)| (p.0@, p.1@),
    ) + optional(name@, slice_text(value)));
}

impl Request {
    /// One page of workouts.
    pub fn list_workouts(page: u32, page_size: u32) -> (r: Request)
        ensures
            r@ == paged("/workouts"@, "workouts"@, page, page_size),
    {
        make_paged("/workouts", "workouts", page, page_size)
    }

    /// The workout with the given identifier.
    pub fn get_workout(workout_id: &str) -> (r: Request)
        ensures
            r@ == by_id(Method::Get, "/workouts/"@, workout_id@, "workout"@),
    {
        make_by_id(Method::Get, "/workouts/", workout_id, "workout")
    }

    /// A new workout; the workout travels as the request's body.
    pub fn create_workout() -> (r: Request)
        ensures
            r@ == plain(Method::Post, "/workouts"@, "/workouts"@, "created workout"@),
    {
        make_plain(Method::Post, "/workouts", "created workout")
    }

    /// A new version of the workout with the given identifier.
    pub fn update_workout(workout_id: &str) -> (r: Request)
        ensures
            r@ == by_id(Method::Put, "/workouts/"@, workout_id@, "updated workout"@),
    {
        make_by_id(Method::Put, "/workouts/", workout_id, "updated workout")
    }

    /// The number of workouts.
    pub fn workout_count() -> (r: Request)
        ensures
            r@ == plain(Method::Get, "/workouts/count"@, "/workouts/count"@, "workout count"@),
    {
        make_plain(Method::Get, "/workouts/count", "workout count")
    }

    /// One page of what happened to workouts, since a given time where one
    /// is given.
    pub fn workout_events(page: u32, page_size: u32, since: Option<&str>) -> (r: Request)
        ensures
            r@ == (RequestView {
                query: paged("/workouts/events"@, "workout events"@, page, page_size).query
                    + optional("since"@, slice_text(since)),
                ..paged("/workouts/events"@, "workout events"@, page, page_size)
            }),
    {
        let mut r = make_paged("/workouts/events", "workout events", page, page_size);
        push_optional(&mut r.query, "since", since);
        r
    }

    /// One page of routines.
    pub fn list_routines(page: u32, page_size: u32) -> (r: Request)
        ensures
            r@ == paged("/routines"@, "routines"@, page, page_size),
    {
        make_paged("/routines", "routines", page, page_size)
    }

    /// The routine with the given identifier.
    pub fn get_routine(routine_id: &str) -> (r: Request)
        ensures
            r@ == by_id(Method::Get, "/routines/"@, routine_id@, "routine"@),
    {
        make_by_id(Method::Get, "/routines/", routine_id, "routine")
    }

    /// A new routine; the routine travels as the request's body.
    pub fn create_routine() -> (r: Request)
        ensures
            r@ == plain(Method::Post, "/routines"@, "/routines"@, "created routine"@),
    {
        make_plain(Method::Post, "/routines", "created routine")
    }

    /// A new version of the routine with the given identifier.
    pub fn update_routine(routine_id: &str) -> (r: Request)
        ensures
            r@ == by_id(Method::Put, "/routines/"@, routine_id@, "updated routine"@),
    {
        make_by_id(Method::Put, "/routines/", routine_id, "updated routine")
    }

    /// One page of exercise templates.
    pub fn list_exercise_templates(page: u32, page_size: u32) -> (r: Request)
        ensures
            r@ == paged("/exercise_templates"@, "exercise templates"@, page, page_size),
    {
        make_paged("/exercise_templates", "exercise templates", page, page_size)
    }

    /// The exercise template with the given identifier.
    pub fn get_exercise_template(template_id: &str) -> (r: Request)
        ensures
            r@ == by_id(Method::Get, "/exercise_templates/"@, template_id@, "exercise template"@),
    {
        make_by_id(Method::Get, "/exercise_templates/", template_id, "exercise template")
    }

    /// A new custom exercise template; it travels as the request's body.
    pub fn create_exercise_template() -> (r: Request)
        ensures
            r@ == plain(
                Method::Post,
                "/exercise_templates"@,
                "/exercise_templates"@,
                "create exercise template"@,
            ),
    {
        make_plain(Method::Post, "/exercise_templates", "create exercise template")
    }

    /// One page of routine folders.
    pub fn list_routine_folders(page: u32, page_size: u32) -> (r: Request)
        ensures
            r@ == paged("/routine_folders"@, "routine folders"@, page, page_size),
    {
        make_paged("/routine_folders", "routine folders", page, page_size)
    }

    /// The routine folder with the given identifier.
    pub fn get_routine_folder(folder_id: &str) -> (r: Request)
        ensures
            r@ == by_id(Method::Get, "/routine_folders/"@, folder_id@, "routine folder"@),
    {
        make_by_id(Method::Get, "/routine_folders/", folder_id, "routine folder")
    }

    /// A new routine folder; it travels as the request's body.
    pub fn create_routine_folder() -> (r: Request)
        ensures
            r@ == plain(
                Method::Post,
                "/routine_folders"@,
                "/routine_folders"@,
                "created routine folder"@,
            ),
    {
        make_plain(Method::Post, "/routine_folders", "created routine folder")
    }

    /// Every set logged for an exercise template, between two times where
    /// they are given.
    pub fn exercise_history(template_id: &str, start_date: Option<&str>, end_date: Option<&str>) -> (r:
        Request)
        ensures
            r@ == (RequestView {
                query: optional("start_date"@, slice_text(start_date)) + optional(
                    "end_date"@,
                    slice_text(end_date),
                ),
                ..by_id(Method::Get, "/exercise_history/"@, template_id@, "exercise history"@)
            }),
    {
        let mut r = make_by_id(Method::Get, "/exercise_history/", template_id, "exercise history");
        push_optional(&mut r.query, "start_date", start_date);
        push_optional(&mut r.query, "end_date", end_date);
        assert(r@.query =~= optional("start_date"@, slice_text(start_date)) + optional(
            "end_date"@,
            slice_text(end_date),
        ));
        r
    }

    /// The account that the API key belongs to.
    pub fn user_info() -> (r: Request)
        ensures
            r@ == plain(Method::Get, "/user/info"@, "/user/info"@, "user info"@),
    {
        make_plain(Method::Get, "/user/info", "user info")
    }

    /// The address this request goes to.
    pub fn url(&self) -> (s: String)
        ensures
            s@ == url_of(self@),
    {
        let mut s = BASE_URL.to_owned();
        s.append(self.path.as_str());
        s
    }

    /// What to say where this request could not be sent.
    pub fn send_failure(&self) -> (s: String)
        ensures
            s@ == send_failure_of(self@),
    {
        proof {
            reveal_strlit(" ");
        }
        let mut s = String::new();
        s.append("Failed to send request to ");
        s.append(self.method.name());
        s.append(" ");
        s.append(self.route.as_str());
        assert(s@ =~= send_failure_of(self@));
        s
    }

    /// What to say where the answer to this request has a status other than
    /// success.
    pub fn status_failure(&self, status: &str, body: &str) -> (s: String)
        ensures
            s@ == status_failure_of(self@, status@, body@),
    {
        proof {
            reveal_strlit(" ");
            reveal_strlit(": ");
        }
        let mut s = String::new();
        s.append(self.method.name());
        s.append(" ");
        s.append(self.path.as_str());
        s.append(" returned ");
        s.append(status);
        s.append(": ");
        s.append(body);
        assert(s@ =~= status_failure_of(self@, status@, body@));
        s
    }

    /// What to say where the body of the answer to this request could not be
    /// read.
    pub fn decode_failure(&self) -> (s: String)
        ensures
            s@ == decode_failure_of(self@),
    {
        let mut s = String::new();
        s.append("Failed to parse ");
        s.append(self.subject.as_str());
        s.append(" response");
        assert(s@ =~= decode_failure_of(self@));
        s
    }
}

} // verus!
