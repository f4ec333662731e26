//! Starting a load test: which requests it runs, with which headers, where its
//! log and report go, and the settings that the form gives or leaves to their
//! defaults.
use vstd::prelude::*;
use vstd::string::*;

use crate::auth::{setting, setting_or};
use crate::headers::{Header, override_headers, overridden, pairs_of};
use crate::models::{NewLoadTest, Request, RequestHeader};
use crate::text::{digit_value, equals_text, is_digit, parse_i32, parse_usize, parsed_i32, parsed_usize};

verus! {

/// The form that starts a load test; every field is text as the browser sent it.
#[derive(Debug, Clone)]
pub struct JsonData {
    pub name: String,
    pub collection_id: String,
    pub request_id: Option<String>,
    pub timeout: Option<String>,
    pub hatch_rate: Option<String>,
    pub launch_all_users: Option<String>,
    pub total_users: Option<String>,
    pub follow: Option<String>,
    pub runtime: Option<String>,
    pub body_type: Option<String>,
    pub body_content: Option<String>,
    pub headers: Option<String>,
}

/// The request id that the form names: its `request_id`, or `0` (all requests
/// of the collection) when it names none.
pub open spec fn form_request_id(form: JsonData) -> Option<i32> {
    parsed_i32(setting(form.request_id, "0"@))
}

/// The form's user counts and run time, each with its default, are numbers.
pub open spec fn form_settings_are_numbers(form: JsonData) -> bool {
    &&& parsed_usize(setting(form.launch_all_users, "30"@)) is Some
    &&& parsed_usize(setting(form.total_users, "500"@)) is Some
    &&& parsed_usize(setting(form.runtime, "30"@)) is Some
}

/// The collection id and request id that the form names.
pub fn load_test_ids(form: &JsonData) -> (res: (i32, i32))
    requires
        parsed_i32(form.collection_id@) is Some,
        form_request_id(*form) is Some,
    ensures
        Some(res.0) == parsed_i32(form.collection_id@),
        Some(res.1) == form_request_id(*form),
{
    let c = match parse_i32(form.collection_id.as_str()) {
        Some(c) => c,
        None => 0,
    };
    let rid = setting_or(form.request_id.clone(), "0");
    let r = match parse_i32(rid.as_str()) {
        Some(r) => r,
        None => 0,
    };
    (c, r)
}

/// Which stored requests a load test runs.
#[derive(Debug, Clone, Copy, PartialEq, Eq, Structural)]
pub enum RequestSource {
    /// The one request with this id.
    One(i32),
    /// Every request of the collection with this id.
    AllOf(i32),
}

/// The requests to fetch: the named request, or all requests of the collection
/// when the request id is `0`.
pub fn request_source(collection_id: i32, request_id: i32) -> (res: RequestSource)
    ensures
        request_id != 0 ==> res == RequestSource::One(request_id),
        request_id == 0 ==> res == RequestSource::AllOf(collection_id),
{
    if request_id != 0 {
        RequestSource::One(request_id)
    } else {
        RequestSource::AllOf(collection_id)
    }
}

/// A request that a load test runs, with its own headers.
#[derive(Debug, Clone)]
pub struct LoadRequest {
    pub request: Request,
    pub headers: Vec<RequestHeader>,
}

/// `request` with the body type and body content that the form gives, where it
/// gives them.
pub open spec fn with_body(request: Request, body_type: Option<String>, body_content: Option<String>) -> Request {
    Request {
        body_type: match body_type {
            Some(t) => Some(t),
            None => request.body_type,
        },
        body_content: match body_content {
            Some(c) => Some(c),
            None => request.body_content,
        },
        ..request
    }
}

/// The requests that a load test runs, from those fetched: when one request was
/// named and found, only that request, with the form's body type and body
/// content in place of its own where the form gives them; otherwise all of them
/// as they are.
pub fn chosen_requests(
    request_id: i32,
    fetched: Vec<LoadRequest>,
    body_type: Option<String>,
    body_content: Option<String>,
) -> (res: Vec<LoadRequest>)
    ensures
        (request_id != 0 && fetched.len() > 0) ==> {
            &&& res.len() == 1
            &&& res[0].request == with_body(fetched[0].request, body_type, body_content)
            &&& res[0].headers == fetched[0].headers
        },
        !(request_id != 0 && fetched.len() > 0) ==> res@ == fetched@,
{
    if request_id != 0 && fetched.len() > 0 {
        let mut fetched = fetched;
        let first = fetched.remove(0);
        let LoadRequest { request, headers } = first;
        let request = Request {
            body_type: match body_type {
                Some(t) => Some(t),
                None => request.body_type,
            },
            body_content: match body_content {
                Some(c) => Some(c),
                None => request.body_content,
            },
            ..request
        };
        let mut out: Vec<LoadRequest> = Vec::new();
        out.push(LoadRequest { request, headers });
        out
    } else {
        fetched
    }
}

/// The headers of a load test: the collection's default headers, with the
/// headers that the form sets laid on top when the form's header list could be
/// read.
pub fn load_test_headers(collection_headers: Vec<Header>, form_headers: Option<Vec<Header>>) -> (res:
    Vec<Header>)
    ensures
        form_headers matches Some(f) ==> pairs_of(res@) == overridden(
            pairs_of(collection_headers@),
            pairs_of(f@),
        ),
        form_headers is None ==> res@ == collection_headers@,
{
    match form_headers {
        Some(f) => override_headers(collection_headers, f),
        None => collection_headers,
    }
}

/// The files of one load test run, all named after one time stamp.
#[derive(Debug, Clone)]
pub struct LoadTestFiles {
    /// The time stamp, `%Y%m%d_%H%M%S`.
    pub stamp: String,
    /// Where the runner writes its log.
    pub log_path: String,
    /// Where the runner writes its report.
    pub report_path: String,
    /// The log's address as the application serves it.
    pub stored_log_path: String,
    /// The report's address as the application serves it.
    pub stored_report_path: String,
}

/// The name of the log file for time stamp `stamp`.
pub open spec fn log_file_name(stamp: Seq<char>) -> Seq<char> {
    "log_"@ + stamp + ".txt"@
}

/// The name of the report file for time stamp `stamp`.
pub open spec fn report_file_name(stamp: Seq<char>) -> Seq<char> {
    "report_"@ + stamp + ".html"@
}

/// The directory that load test files go to: `DATA_DIR`, or `/opt/data`.
pub open spec fn data_dir_of(data_dir: Option<String>) -> Seq<char> {
    setting(data_dir, "/opt/data"@)
}

/// `files` are the files for the run stamped `files.stamp`, with the data
/// directory `data_dir`.
pub open spec fn files_for(files: LoadTestFiles, data_dir: Option<String>) -> bool {
    let stamp = files.stamp@;
    &&& files.log_path@ == data_dir_of(data_dir) + "/"@ + log_file_name(stamp)
    &&& files.report_path@ == data_dir_of(data_dir) + "/"@ + report_file_name(stamp)
    &&& files.stored_log_path@ == "/data/"@ + log_file_name(stamp)
    &&& files.stored_report_path@ == "/data/"@ + report_file_name(stamp)
}

/// The files of a run stamped `stamp`, in `data_dir` (or `/opt/data`).
pub fn load_test_files(data_dir: Option<String>, stamp: &str) -> (res: LoadTestFiles)
    ensures
        res.stamp@ == stamp@,
        files_for(res, data_dir),
        res.log_path@ == (match data_dir {
            Some(d) => d@,
            None => "/opt/data"@,
        }) + "/log_"@ + stamp@ + ".txt"@,
        res.report_path@ == (match data_dir {
            Some(d) => d@,
            None => "/opt/data"@,
        }) + "/report_"@ + stamp@ + ".html"@,
{
    let ghost dd = data_dir;
    let dir = setting_or(data_dir, "/opt/data");
    let mut log_name = String::from_str("log_");
    log_name.append(stamp);
    log_name.append(".txt");
    let mut report_name = String::from_str("report_");
    report_name.append(stamp);
    report_name.append(".html");
    let mut log_path = String::from_str(dir.as_str());
    log_path.append("/");
    log_path.append(log_name.as_str());
    let mut report_path = String::from_str(dir.as_str());
    report_path.append("/");
    report_path.append(report_name.as_str());
    let mut stored_log_path = String::from_str("/data/");
    stored_log_path.append(log_name.as_str());
    let mut stored_report_path = String::from_str("/data/");
    stored_report_path.append(report_name.as_str());
    let res = LoadTestFiles {
        stamp: String::from_str(stamp),
        log_path,
        report_path,
        stored_log_path,
        stored_report_path,
    };
    proof {
        law_report_beside_log(res, dd);
    }
    res
}

/// The number that the two digits of `s` at `i` and `i + 1` write.
pub open spec fn two_digit_value(s: Seq<char>, i: int) -> int {
    digit_value(s[i]) * 10 + digit_value(s[i + 1])
}

/// The shape of a time stamp written with `%Y%m%d_%H%M%S`: the year (four
/// digits for the years 0 to 9999, otherwise a sign and at least four digits),
/// two digits each of month (1 to 12) and day (1 to 31), `_`, and two digits
/// each of hour (0 to 23), minute (0 to 59) and second (0 to 60, a leap
/// second being 60).
pub open spec fn is_time_stamp(s: Seq<char>) -> bool {
    let n = s.len();
    &&& n >= 15
    &&& s[n - 7] == '_'
    &&& forall|i: int| 0 < i < n && i != n - 7 ==> #[trigger] is_digit(s[i])
    &&& (is_digit(s[0]) <==> n == 15)
    &&& (is_digit(s[0]) || s[0] == '+' || s[0] == '-')
    &&& 1 <= two_digit_value(s, n - 11) <= 12
    &&& 1 <= two_digit_value(s, n - 9) <= 31
    &&& two_digit_value(s, n - 6) <= 23
    &&& two_digit_value(s, n - 4) <= 59
    &&& two_digit_value(s, n - 2) <= 60
}

/// `std::time::SystemTime::now().duration_since(UNIX_EPOCH)`, as whole
/// seconds and the nanoseconds beyond them: `None` when the machine's clock is
/// set before 1970. The result depends on the clock; only that the nanoseconds
/// stay below one second (as `Duration::subsec_nanos` documents) is stated.
#[verifier::external_body]
fn clock_since_epoch() -> (res: Option<(u64, u32)>)
    ensures
        res matches Some(t) ==> t.1 < 1_000_000_000,
{
    match std::time::SystemTime::now().duration_since(std::time::UNIX_EPOCH) {
        Ok(d) => Some((d.as_secs(), d.subsec_nanos())),
        Err(_) => None,
    }
}

/// What chrono writes for the time `secs` seconds and `nanos` nanoseconds after
/// the start of 1970 (UTC) with the format `format`: `None` when the time lies
/// outside chrono's range of dates.
pub uninterp spec fn utc_stamp(secs: i64, nanos: u32, format: Seq<char>) -> Option<Seq<char>>;

/// An optional string, as text.
pub open spec fn text_of(o: Option<String>) -> Option<Seq<char>> {
    match o {
        Some(s) => Some(s@),
        None => None,
    }
}

/// chrono's `DateTime::<Utc>::from_timestamp(secs, nanos)` written with
/// `format`, for the one format that load tests and runs are named with,
/// `%Y%m%d_%H%M%S`: `None` when the time lies outside chrono's range of dates.
/// The result is a function of the arguments alone. Its source (`write_year`
/// and `write_two`) writes the year with four digits for the years 0 to 9999
/// and with a sign and at least four digits otherwise, then two digits each of
/// month, day, hour, minute and second, each in its range. Which dates chrono
/// can represent is not stated.
#[verifier::external_body]
fn utc_stamp_text(secs: i64, nanos: u32, format: &str) -> (res: Option<String>)
    requires
        format@ == "%Y%m%d_%H%M%S"@,
    ensures
        text_of(res) == utc_stamp(secs, nanos, format@),
        res matches Some(s) ==> is_time_stamp(s@),
{
    match chrono::DateTime::from_timestamp(secs, nanos) {
        Some(t) => Some(t.format(format).to_string()),
        None => None,
    }
}

/// The stamp for a clock reading: `None` for no reading, or for seconds beyond
/// what chrono takes.
pub open spec fn stamp_of(reading: Option<(u64, u32)>) -> Option<Seq<char>> {
    match reading {
        Some(r) => if r.0 <= i64::MAX {
            utc_stamp(r.0 as i64, r.1, "%Y%m%d_%H%M%S"@)
        } else {
            None
        },
        None => None,
    }
}

/// The stamp, `%Y%m%d_%H%M%S` in UTC, for a clock reading of whole seconds and
/// nanoseconds since the start of 1970: `None` when there is no reading, when
/// the seconds exceed what chrono takes, or when chrono cannot write that date.
pub fn stamp_of_reading(reading: Option<(u64, u32)>) -> (res: Option<String>)
    ensures
        text_of(res) == stamp_of(reading),
        res matches Some(s) ==> is_time_stamp(s@),
{
    match reading {
        Some((secs, nanos)) => {
            if secs <= 0x7fff_ffff_ffff_ffff {
                utc_stamp_text(secs as i64, nanos, "%Y%m%d_%H%M%S")
            } else {
                None
            }
        },
        None => None,
    }
}

/// The current time as a stamp, `%Y%m%d_%H%M%S` in UTC, that names the files
/// of one run: the stamp of the clock's reading, whatever it is (`None` when
/// the clock is set before 1970 or beyond the dates that can be written).
pub fn time_stamp_now() -> (res: Option<String>)
    ensures
        exists|r: Option<(u64, u32)>| #[trigger] stamp_of(r) == text_of(res),
        res matches Some(s) ==> is_time_stamp(s@),
{
    let reading = clock_since_epoch();
    stamp_of_reading(reading)
}

/// The files of a load test started now, in `data_dir` (or `/opt/data`): all
/// named after one stamp, that of the clock's reading; `None` when the clock
/// gives no stamp (see [`time_stamp_now`]).
pub fn new_load_test_files(data_dir: Option<String>) -> (res: Option<LoadTestFiles>)
    ensures
        res matches Some(f) ==> {
            &&& is_time_stamp(f.stamp@)
            &&& files_for(f, data_dir)
            &&& exists|r: Option<(u64, u32)>| #[trigger] stamp_of(r) == Some(f.stamp@)
        },
{
    match time_stamp_now() {
        Some(stamp) => Some(load_test_files(data_dir, stamp.as_str())),
        None => None,
    }
}

/// The record that stores a load test started from `form` for collection
/// `collection_id` with the files `files`.
pub fn load_test_record(form: &JsonData, collection_id: i32, files: &LoadTestFiles) -> (res:
    NewLoadTest)
    ensures
        res.name == form.name,
        res.source_type == form.collection_id,
        res.source_id == collection_id,
        res.log_path == files.stored_log_path,
        res.report_path == files.stored_report_path,
{
    NewLoadTest {
        source_type: form.collection_id.clone(),
        source_id: collection_id,
        name: form.name.clone(),
        log_path: files.stored_log_path.clone(),
        report_path: files.stored_report_path.clone(),
    }
}

/// The settings that the load test runner gets.
#[derive(Debug, Clone)]
pub struct LoadConfig {
    pub log_path: String,
    pub report_path: String,
    pub launch_all_users: usize,
    pub timeout: String,
    pub hatch_rate: String,
    pub runtime: usize,
    pub follow: bool,
    pub total_users: usize,
}

/// The runner's settings for `form` and `files`: each setting that the form
/// leaves out takes its default (timeout `100`, hatch rate `100`, `30` users
/// launched at once, `500` users in all, `30` seconds, following the log), and
/// the log is followed exactly when `follow` is `on`.
pub fn load_config(form: &JsonData, files: &LoadTestFiles) -> (res: LoadConfig)
    requires
        form_settings_are_numbers(*form),
    ensures
        res.log_path == files.log_path,
        res.report_path == files.report_path,
        res.timeout@ == setting(form.timeout, "100"@),
        res.hatch_rate@ == setting(form.hatch_rate, "100"@),
        Some(res.launch_all_users) == parsed_usize(setting(form.launch_all_users, "30"@)),
        Some(res.total_users) == parsed_usize(setting(form.total_users, "500"@)),
        Some(res.runtime) == parsed_usize(setting(form.runtime, "30"@)),
        res.follow == (setting(form.follow, "on"@) == "on"@),
{
    let launch = setting_or(form.launch_all_users.clone(), "30");
    let total = setting_or(form.total_users.clone(), "500");
    let runtime = setting_or(form.runtime.clone(), "30");
    let follow = setting_or(form.follow.clone(), "on");
    let launch_all_users = match parse_usize(launch.as_str()) {
        Some(n) => n,
        None => 0,
    };
    let total_users = match parse_usize(total.as_str()) {
        Some(n) => n,
        None => 0,
    };
    let runtime = match parse_usize(runtime.as_str()) {
        Some(n) => n,
        None => 0,
    };
    LoadConfig {
        log_path: files.log_path.clone(),
        report_path: files.report_path.clone(),
        launch_all_users,
        timeout: setting_or(form.timeout.clone(), "100"),
        hatch_rate: setting_or(form.hatch_rate.clone(), "100"),
        runtime,
        follow: equals_text(follow.as_str(), "on"),
        total_users,
    }
}

/// The number of users started together: `launch_all_users`, at least one.
pub open spec fn batch_size(launch_all_users: usize) -> int {
    if launch_all_users == 0 {
        1
    } else {
        launch_all_users as int
    }
}

/// How many users a load test run has started once it starts its next batch,
/// after `started` users and with `time_left` telling whether its run time
/// still lasts: `None` when all `total_users` are started or the time is over;
/// otherwise a batch more, but never more than `total_users`.
pub fn next_batch_end(started: usize, config: &LoadConfig, time_left: bool) -> (res: Option<usize>)
    ensures
        res is None <==> (started >= config.total_users || !time_left),
        res matches Some(end) ==> end == (if started + batch_size(config.launch_all_users)
            >= config.total_users {
            config.total_users as int
        } else {
            started + batch_size(config.launch_all_users)
        }),
{
    if started >= config.total_users || !time_left {
        return None;
    }
    let batch = if config.launch_all_users == 0 {
        1
    } else {
        config.launch_all_users
    };
    if config.total_users - started <= batch {
        Some(config.total_users)
    } else {
        Some(started + batch)
    }
}

/// The log and the report of a run lie side by side in the data directory:
/// `DATA_DIR` when it is set, `/opt/data` otherwise, each named after the
/// run's stamp; the application serves both under `/data/`.
pub proof fn law_report_beside_log(files: LoadTestFiles, data_dir: Option<String>)
    requires
        files_for(files, data_dir),
    ensures
        files.log_path@ == (match data_dir {
            Some(d) => d@,
            None => "/opt/data"@,
        }) + "/log_"@ + files.stamp@ + ".txt"@,
        files.report_path@ == (match data_dir {
            Some(d) => d@,
            None => "/opt/data"@,
        }) + "/report_"@ + files.stamp@ + ".html"@,
        files.stored_log_path@ == "/data/log_"@ + files.stamp@ + ".txt"@,
        files.stored_report_path@ == "/data/report_"@ + files.stamp@ + ".html"@,
{
    reveal_strlit("/");
    reveal_strlit("/log_");
    reveal_strlit("log_");
    reveal_strlit("/report_");
    reveal_strlit("report_");
    reveal_strlit("/data/");
    reveal_strlit("/data/log_");
    reveal_strlit("/data/report_");
    let dir = data_dir_of(data_dir);
    let st = files.stamp@;
    assert(dir + "/"@ + log_file_name(st) =~= dir + "/log_"@ + st + ".txt"@);
    assert(dir + "/"@ + report_file_name(st) =~= dir + "/report_"@ + st + ".html"@);
    assert("/data/"@ + log_file_name(st) =~= "/data/log_"@ + st + ".txt"@);
    assert("/data/"@ + report_file_name(st) =~= "/data/report_"@ + st + ".html"@);
}

} // verus!
