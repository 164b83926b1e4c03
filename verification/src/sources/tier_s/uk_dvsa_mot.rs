use vstd::prelude::*;

use crate::error::{joined, SourceError};
use crate::json::JsonValue;
use crate::models::{CalendarDate, Inspection, InspectionResult, SourceData};
use crate::sources::{
    is_country_code, opt_date_in_prefix, opt_is_sliceable, opt_prefix_date, opt_sliceable, owned_opt, DAY_SECS,
};
use crate::text::{is_text, parse_u64, parse_unsigned};

verus! {

/// A lock that is awaited rather than blocked on (`tokio::sync::Mutex`).
#[verifier::external_type_specification]
#[verifier::external_body]
#[verifier::reject_recursive_types(T)]
pub struct ExAsyncMutex<T: ?Sized>(tokio::sync::Mutex<T>);

/// DVSA MOT History API v2 (UK + NI)
/// https://documentation.history.mot.api.gov.uk/
pub struct UkDvsaMot {
    client: reqwest::Client,
    client_id: Option<String>,
    client_secret: Option<String>,
    token: tokio::sync::Mutex<Option<TokenCache>>,
}

/// An access token and the moment it stops being used, in milliseconds on a
/// monotonic clock (the same clock that `now_ms` is read from when it is used).
pub struct TokenCache {
    pub access_token: String,
    pub expires_at_ms: u64,
}

/// The moment `lifetime_secs` seconds after `now_ms`, in milliseconds (at the
/// clock's end where it would pass it).
pub open spec fn expiry_after(now_ms: u64, lifetime_secs: u64) -> u64 {
    let t = now_ms + lifetime_secs * 1000;
    if t <= u64::MAX {
        t as u64
    } else {
        u64::MAX
    }
}

/// The token to use at `now_ms` without asking for a new one: the stored token
/// while its expiry is still ahead, nothing otherwise.
pub fn reusable_token(stored: &Option<TokenCache>, now_ms: u64) -> (r: Option<String>)
    ensures
        match stored {
            Some(t) => if now_ms < t.expires_at_ms {
                r == Some(t.access_token)
            } else {
                r is None
            },
            None => r is None,
        },
{
    match stored {
        Some(t) => if now_ms < t.expires_at_ms {
            Some(t.access_token.clone())
        } else {
            None
        },
        None => None,
    }
}

/// The entry kept for a token just received at `now_ms` that may be used for
/// `lifetime_secs` seconds.
pub fn fresh_token(access_token: String, lifetime_secs: u64, now_ms: u64) -> (r: TokenCache)
    ensures
        r.access_token == access_token,
        r.expires_at_ms == expiry_after(now_ms, lifetime_secs),
{
    let expires_at_ms = if lifetime_secs <= (u64::MAX - now_ms) / 1000 {
        now_ms + lifetime_secs * 1000
    } else {
        u64::MAX
    };
    TokenCache { access_token, expires_at_ms }
}

/// An empty token slot, made with `tokio::sync::Mutex::new(None)`.  Nothing is
/// claimed of it: the lock's contents are not visible to the proofs.
#[verifier::external_body]
fn empty_token_slot() -> tokio::sync::Mutex<Option<TokenCache>> {
    tokio::sync::Mutex::new(None)
}

/// The MOT history of a vehicle.
#[derive(Debug, Clone, PartialEq, Eq)]
pub struct MotResponse {
    pub registration: Option<String>,
    pub make: Option<String>,
    pub model: Option<String>,
    pub mot_tests: Option<Vec<MotTest>>,
}

/// One MOT test.
#[derive(Debug, Clone, PartialEq, Eq)]
pub struct MotTest {
    pub completed_date: Option<String>,
    pub test_result: Option<String>,
    pub odometer_value: Option<String>,
    pub odometer_unit: Option<String>,
    pub mot_test_number: Option<String>,
    pub expiry_date: Option<String>,
    pub rfr_and_comments: Option<Vec<RfrComment>>,
}

/// A reason for rejection, or a comment, recorded at a test.
#[derive(Debug, Clone, PartialEq, Eq)]
pub struct RfrComment {
    pub text: Option<String>,
    pub kind: Option<String>,
}

/// The odometer reading of a test, with its unit.
#[derive(Debug, Clone, Copy, PartialEq, Eq, Structural)]
pub enum Odometer {
    /// No reading, or one that is not a whole number.
    Unreadable,
    Kilometres(u64),
    Miles(u64),
}

impl Odometer {
    /// The reading in miles, when it was taken in miles.
    pub fn miles(&self) -> (r: Option<u64>)
        ensures
            r == (match *self {
                Odometer::Miles(m) => Some(m),
                _ => None::<u64>,
            }),
    {
        match self {
            Odometer::Miles(m) => Some(*m),
            _ => None,
        }
    }

    /// The reading in kilometres: none for an unreadable one, the reading
    /// itself for one in kilometres, and `miles_as_km` (the miles reading
    /// converted) for one in miles.
    pub fn kilometres(&self, miles_as_km: Option<u64>) -> (r: Option<u64>)
        ensures
            r == (match *self {
                Odometer::Unreadable => None::<u64>,
                Odometer::Kilometres(k) => Some(k),
                Odometer::Miles(_) => miles_as_km,
            }),
    {
        match self {
            Odometer::Unreadable => None,
            Odometer::Kilometres(k) => Some(*k),
            Odometer::Miles(_) => miles_as_km,
        }
    }
}

impl UkDvsaMot {
    /// The client the source's requests are sent with.
    pub closed spec fn spec_client(&self) -> reqwest::Client {
        self.client
    }

    /// The OAuth client id the source was configured with.
    pub closed spec fn spec_client_id(&self) -> Option<String> {
        self.client_id
    }

    /// The OAuth client secret the source was configured with.
    pub closed spec fn spec_client_secret(&self) -> Option<String> {
        self.client_secret
    }

    /// The lock that keeps the source's current access token.
    pub closed spec fn spec_token_slot(&self) -> tokio::sync::Mutex<Option<TokenCache>> {
        self.token
    }

    pub fn new(client: reqwest::Client, client_id: Option<String>, client_secret: Option<String>) -> (s:
        Self)
        ensures
            s.spec_client() == client,
            s.spec_client_id() == client_id,
            s.spec_client_secret() == client_secret,
    {
        Self { client, client_id, client_secret, token: empty_token_slot() }
    }

    /// The client the source's requests are sent with.
    pub fn client(&self) -> (c: &reqwest::Client)
        ensures
            *c == self.spec_client(),
    {
        &self.client
    }

    /// Where the current access token is kept between requests.
    pub fn token_slot(&self) -> (t: &tokio::sync::Mutex<Option<TokenCache>>)
        ensures
            *t == self.spec_token_slot(),
    {
        &self.token
    }

    /// Short machine-readable id.
    pub fn id(&self) -> (r: &'static str)
        ensures
            r@ == "uk_dvsa_mot"@,
    {
        "uk_dvsa_mot"
    }

    /// Country code of the source.
    pub fn country(&self) -> (r: &'static str)
        ensures
            r@ == "GB"@,
            is_country_code(r@),
    {
        proof {
            reveal_strlit("GB");
        }
        "GB"
    }

    /// Human-readable display name.
    pub fn name(&self) -> (r: &'static str)
        ensures
            r@ == "DVSA MOT History"@,
    {
        "DVSA MOT History"
    }

    /// How long a successful answer may be cached, in seconds.
    pub fn cache_ttl_secs(&self) -> (r: u64)
        ensures
            r == DAY_SECS,
    {
        DAY_SECS
    }

    /// The client id and secret a token is asked for with; the source is
    /// unavailable unless both are configured.
    pub fn credentials(&self) -> (r: Result<(String, String), SourceError>)
        ensures
            match (self.spec_client_id(), self.spec_client_secret()) {
                (Some(a), Some(b)) => r == Ok::<(String, String), SourceError>((a, b)),
                _ => r matches Err(SourceError::Unavailable(m)) && m@
                    == "No DVSA credentials configured"@,
            },
    {
        match (&self.client_id, &self.client_secret) {
            (Some(a), Some(b)) => Ok((a.clone(), b.clone())),
            _ => Err(SourceError::Unavailable(String::from_str("No DVSA credentials configured"))),
        }
    }

    /// Where access tokens are asked for.
    pub fn token_url(&self) -> (r: &'static str)
        ensures
            r@ == "https://login.microsoftonline.com/a455b827-244d-4b72-b19c-0996a712dc8f/oauth2/v2.0/token"@,
    {
        "https://login.microsoftonline.com/a455b827-244d-4b72-b19c-0996a712dc8f/oauth2/v2.0/token"
    }

    /// The scope access tokens are asked for.
    pub fn token_scope(&self) -> (r: &'static str)
        ensures
            r@ == "https://tapi.dvsa.gov.uk/.default"@,
    {
        "https://tapi.dvsa.gov.uk/.default"
    }

    /// The API key sent with history requests.
    pub fn api_key(&self) -> (r: &'static str)
        ensures
            r@ == "vindicateapp"@,
    {
        "vindicateapp"
    }

    /// The token in a token answer, and how many seconds it may be used for:
    /// a minute less than the answer's `expires_in` (an hour when absent).
    pub fn token_from_response(&self, resp: &JsonValue) -> (r: Result<(String, u64), SourceError>)
        ensures
            match resp.str_at("access_token"@) {
                Some(t) => r == Ok::<(String, u64), SourceError>(
                    (t, token_lifetime(resp.u64_at("expires_in"@))),
                ),
                None => r matches Err(SourceError::Parse(m)) && m@
                    == "No access_token in DVSA response"@,
            },
    {
        let token = match resp.str_field("access_token") {
            Some(t) => t.clone(),
            None => {
                return Err(SourceError::Parse(String::from_str("No access_token in DVSA response")));
            },
        };
        let expires_in = match resp.u64_field("expires_in") {
            Some(e) => e,
            None => 3600,
        };
        let lifetime = if expires_in > 60 {
            expires_in - 60
        } else {
            0
        };
        Ok((token, lifetime))
    }

    /// The history request for `vin`.
    pub fn history_url(&self, vin: &str) -> (r: String)
        ensures
            r@ == "https://history.mot.api.gov.uk/v1/trade/vehicles/registration/"@ + vin@,
    {
        joined("https://history.mot.api.gov.uk/v1/trade/vehicles/registration/", vin)
    }

    /// The odometer reading of a test.
    pub fn odometer(&self, t: &MotTest) -> (r: Odometer)
        ensures
            r == spec_odometer(*t),
    {
        match &t.odometer_value {
            Some(v) => match parse_u64(v.as_str()) {
                Some(n) => if is_text(t.odometer_unit.as_ref(), "mi") {
                    Odometer::Miles(n)
                } else {
                    Odometer::Kilometres(n)
                },
                None => Odometer::Unreadable,
            },
            None => Odometer::Unreadable,
        }
    }

    /// Whether reading the dates of the tests would succeed: each completion
    /// date, and the expiry date of each test whose completion date reads, is at
    /// least ten bytes long with byte 10 starting a character.
    pub fn dates_readable(&self, tests: &Vec<MotTest>) -> (r: bool)
        ensures
            r == mot_sliceable(tests@),
    {
        let n = tests.len();
        let mut i: usize = 0;
        while i < n
            invariant
                i <= n,
                n == tests@.len(),
                forall|j: int| 0 <= j < i ==> mot_test_sliceable(#[trigger] tests@[j]),
            decreases n - i,
        {
            let t = &tests[i];
            let done = t.completed_date.as_ref();
            if !opt_is_sliceable(done) {
                return false;
            }
            if opt_date_in_prefix(done).is_some() && !opt_is_sliceable(t.expiry_date.as_ref()) {
                return false;
            }
            i = i + 1;
        }
        true
    }

    /// The inspections the tests record: one per test whose completion date
    /// reads, in order, with the mileage given for that test (in kilometres).
    pub fn source_data(&self, tests: Vec<MotTest>, mileages: Vec<Option<u64>>) -> (r: SourceData)
        requires
            tests@.len() == mileages@.len(),
            mot_sliceable(tests@),
        ensures
            mot_inspections_match(tests@, mileages@, r.inspections@),
            r.registrations@.len() == 0,
            r.recalls@.len() == 0,
            r.encumbrances@.len() == 0,
            r.decode is None,
    {
        let ghost all_tests = tests@;
        let ghost all_miles = mileages@;
        let mut tests = tests;
        let mut mileages = mileages;
        let mut inspections: Vec<Inspection> = Vec::new();
        let ghost mut k: int = 0;
        assert(all_tests.take(0) =~= Seq::<MotTest>::empty());
        assert(all_miles.take(0) =~= Seq::<Option<u64>>::empty());
        assert(all_tests.skip(0) =~= all_tests);
        assert(all_miles.skip(0) =~= all_miles);
        while tests.len() > 0
            invariant
                0 <= k <= all_tests.len(),
                all_tests.len() == all_miles.len(),
                tests@ == all_tests.skip(k),
                mileages@ == all_miles.skip(k),
                mot_sliceable(all_tests),
                mot_inspections_match(all_tests.take(k), all_miles.take(k), inspections@),
            decreases tests@.len(),
        {
            let t = tests.remove(0);
            let miles = mileages.remove(0);
            assert(t == all_tests[k]);
            assert(miles == all_miles[k]);
            assert(mot_test_sliceable(all_tests[k]));
            let ghost before = inspections@;
            let ghost tk = all_tests.take(k + 1);
            let ghost mk = all_miles.take(k + 1);
            assert(tk.drop_last() =~= all_tests.take(k));
            assert(mk.drop_last() =~= all_miles.take(k));
            assert(tk.last() == t);
            assert(mk.last() == miles);
            match mot_inspection(t, miles) {
                Some(insp) => {
                    inspections.push(insp);
                    assert(inspections@.drop_last() =~= before);
                },
                None => {},
            }
            proof {
                k = k + 1;
                assert(tests@ =~= all_tests.skip(k));
                assert(mileages@ =~= all_miles.skip(k));
            }
        }
        assert(all_tests.take(k) =~= all_tests);
        assert(all_miles.take(k) =~= all_miles);
        SourceData {
            registrations: Vec::new(),
            inspections,
            recalls: Vec::new(),
            encumbrances: Vec::new(),
            decode: None,
        }
    }
}

impl UkDvsaMot {
    /// The inspections the tests record (as `source_data`), or `None` when a
    /// date text of a test is too short to take the first ten bytes of.
    pub fn read_tests(&self, tests: Vec<MotTest>, mileages: Vec<Option<u64>>) -> (r: Option<SourceData>)
        requires
            tests@.len() == mileages@.len(),
        ensures
            r is None <==> !mot_sliceable(tests@),
            r matches Some(data) ==> {
                &&& mot_inspections_match(tests@, mileages@, data.inspections@)
                &&& data.registrations@.len() == 0
                &&& data.recalls@.len() == 0
                &&& data.encumbrances@.len() == 0
                &&& data.decode is None
            },
    {
        if self.dates_readable(&tests) {
            Some(self.source_data(tests, mileages))
        } else {
            None
        }
    }
}

/// How long a token may be used: `expires_in` (an hour when absent) less a
/// minute, never below zero.
pub open spec fn token_lifetime(expires_in: Option<u64>) -> u64 {
    let e: u64 = match expires_in {
        Some(e) => e,
        None => 3600,
    };
    if e > 60 {
        (e - 60) as u64
    } else {
        0
    }
}

/// The odometer reading of a test: a whole number in its `odometerValue`, in
/// miles when its unit is `mi` and in kilometres otherwise.
pub open spec fn spec_odometer(t: MotTest) -> Odometer {
    match t.odometer_value {
        Some(v) => match parse_unsigned(v@, u64::MAX as nat) {
            Some(n) => if t.odometer_unit matches Some(u) && u@ == "mi"@ {
                Odometer::Miles(n as u64)
            } else {
                Odometer::Kilometres(n as u64)
            },
            None => Odometer::Unreadable,
        },
        None => Odometer::Unreadable,
    }
}

/// The date a test was completed on, when it gives a readable one.
pub open spec fn mot_date(t: MotTest) -> Option<CalendarDate> {
    opt_prefix_date(t.completed_date)
}

/// Reading the dates of a test does not fail.
pub open spec fn mot_test_sliceable(t: MotTest) -> bool {
    &&& opt_sliceable(t.completed_date)
    &&& mot_date(t) is Some ==> opt_sliceable(t.expiry_date)
}

/// Reading the dates of all tests does not fail.
pub open spec fn mot_sliceable(tests: Seq<MotTest>) -> bool {
    forall|j: int| 0 <= j < tests.len() ==> mot_test_sliceable(#[trigger] tests[j])
}

/// The outcome a test's `testResult` stands for.
pub open spec fn mot_spec_result(s: Option<String>) -> InspectionResult {
    match s {
        Some(v) => if v@ == "PASSED"@ {
            InspectionResult::Pass
        } else if v@ == "FAILED"@ {
            InspectionResult::Fail
        } else {
            InspectionResult::Unknown
        },
        None => InspectionResult::Unknown,
    }
}

/// The texts of the comments of kind `kind`, in order (comments without text
/// are left out).
pub open spec fn comment_texts(rs: Seq<RfrComment>, kind: Seq<char>) -> Seq<String>
    decreases rs.len(),
{
    if rs.len() == 0 {
        Seq::empty()
    } else {
        let before = comment_texts(rs.drop_last(), kind);
        let last = rs.last();
        match (last.kind, last.text) {
            (Some(k), Some(t)) => if k@ == kind {
                before.push(t)
            } else {
                before
            },
            _ => before,
        }
    }
}

/// A comment of kind `kind` that has a text.
pub open spec fn texted_of_kind(kind: Seq<char>) -> spec_fn(RfrComment) -> bool {
    |c: RfrComment| (c.kind matches Some(k) && k@ == kind) && c.text is Some
}

/// The texts of a test's comments of one kind are the texts of all its
/// comments of that kind that have one, in their order: none is left out,
/// none is added, and there are as many as such comments.
pub proof fn lemma_comment_texts_are_all_of_kind(rs: Seq<RfrComment>, kind: Seq<char>)
    ensures
        comment_texts(rs, kind) == rs.filter(texted_of_kind(kind)).map_values(
            |c: RfrComment| c.text.unwrap(),
        ),
        comment_texts(rs, kind).len() == rs.filter(texted_of_kind(kind)).len(),
    decreases rs.len(),
{
    reveal(Seq::filter);
    if rs.len() > 0 {
        lemma_comment_texts_are_all_of_kind(rs.drop_last(), kind);
        let f = |c: RfrComment| c.text.unwrap();
        let before = rs.drop_last().filter(texted_of_kind(kind));
        if texted_of_kind(kind)(rs.last()) {
            assert(before.push(rs.last()).map_values(f) =~= before.map_values(f).push(f(rs.last())));
        }
    }
}

/// The comments of a test (none when absent).
pub open spec fn comments_of(t: MotTest) -> Seq<RfrComment> {
    match t.rfr_and_comments {
        Some(rs) => rs@,
        None => Seq::empty(),
    }
}

/// `insp` is the inspection a dated test records, with mileage `mileage_km`.
pub open spec fn mot_inspection_matches(t: MotTest, mileage_km: Option<u64>, insp: Inspection) -> bool {
    &&& mot_date(t) == Some(insp.date)
    &&& insp.country@ == "GB"@
    &&& insp.result == mot_spec_result(t.test_result)
    &&& insp.mileage_km == mileage_km
    &&& insp.defects@ == comment_texts(comments_of(t), "FAIL"@)
    &&& insp.advisories@ == comment_texts(comments_of(t), "ADVISORY"@)
    &&& insp.expiry == opt_prefix_date(t.expiry_date)
    &&& insp.test_number == t.mot_test_number
    &&& insp.source@ == "uk_dvsa_mot"@
}

/// `out` holds one inspection per dated test of `tests`, in order, each with
/// the mileage given at the same position of `miles`.
pub open spec fn mot_inspections_match(
    tests: Seq<MotTest>,
    miles: Seq<Option<u64>>,
    out: Seq<Inspection>,
) -> bool
    decreases tests.len(),
{
    if tests.len() == 0 || miles.len() == 0 {
        out.len() == 0
    } else if mot_date(tests.last()) is Some {
        &&& out.len() > 0
        &&& mot_inspection_matches(tests.last(), miles.last(), out.last())
        &&& mot_inspections_match(tests.drop_last(), miles.drop_last(), out.drop_last())
    } else {
        mot_inspections_match(tests.drop_last(), miles.drop_last(), out)
    }
}

fn mot_result(s: Option<&String>) -> (r: InspectionResult)
    ensures
        r == mot_spec_result(owned_opt(s)),
{
    if is_text(s, "PASSED") {
        InspectionResult::Pass
    } else if is_text(s, "FAILED") {
        InspectionResult::Fail
    } else {
        InspectionResult::Unknown
    }
}

/// The texts of the comments of kind `kind`.
fn texts_of_kind(rs: &Vec<RfrComment>, kind: &str) -> (r: Vec<String>)
    ensures
        r@ == comment_texts(rs@, kind@),
{
    let mut out: Vec<String> = Vec::new();
    let n = rs.len();
    let mut i: usize = 0;
    assert(rs@.take(0) =~= Seq::<RfrComment>::empty());
    while i < n
        invariant
            i <= n,
            n == rs@.len(),
            out@ == comment_texts(rs@.take(i as int), kind@),
        decreases n - i,
    {
        let c = &rs[i];
        let ghost next = rs@.take(i + 1);
        assert(next.drop_last() =~= rs@.take(i as int));
        assert(next.last() == *c);
        if is_text(c.kind.as_ref(), kind) {
            match &c.text {
                Some(t) => {
                    out.push(t.clone());
                },
                None => {},
            }
        }
        i = i + 1;
    }
    assert(rs@.take(n as int) =~= rs@);
    out
}

/// The inspection a test records, when its completion date reads.
fn mot_inspection(t: MotTest, mileage_km: Option<u64>) -> (r: Option<Inspection>)
    requires
        mot_test_sliceable(t),
    ensures
        r is Some <==> mot_date(t) is Some,
        r matches Some(insp) ==> mot_inspection_matches(t, mileage_km, insp),
{
    let date = match opt_date_in_prefix(t.completed_date.as_ref()) {
        Some(d) => d,
        None => {
            return None;
        },
    };
    let result = mot_result(t.test_result.as_ref());
    let (defects, advisories) = match &t.rfr_and_comments {
        Some(rs) => (texts_of_kind(rs, "FAIL"), texts_of_kind(rs, "ADVISORY")),
        None => {
            let ghost none = Seq::<RfrComment>::empty();
            assert(comment_texts(none, "FAIL"@) == Seq::<String>::empty());
            assert(comment_texts(none, "ADVISORY"@) == Seq::<String>::empty());
            (Vec::new(), Vec::new())
        },
    };
    let expiry = opt_date_in_prefix(t.expiry_date.as_ref());
    Some(
        Inspection {
            country: String::from_str("GB"),
            date,
            result,
            mileage_km,
            defects,
            advisories,
            expiry,
            test_number: t.mot_test_number,
            source: String::from_str("uk_dvsa_mot"),
        },
    )
}

} // verus!
