//! Responses of the exchange endpoint and what can be read out of them.
use vstd::prelude::*;
use crate::error::{ApiError, Error};
use crate::json::{
    Json, JsonNumber, JsonValue, get_member, json_seq_view, json_view, lemma_json_seq_view,
    lemma_members_view, members_view, obj_get,
};
use crate::text::chars_of;

verus! {

/// An order resting on the book.
#[derive(Debug, Clone, Copy, PartialEq, Eq, Structural)]
pub struct RestingOrder {
    pub oid: u64,
}

/// An order that was filled.
#[derive(Debug, Clone)]
pub struct FilledOrder {
    pub total_sz: String,
    pub avg_px: String,
    pub oid: u64,
}

/// The status of one order in an order response.
#[derive(Debug, Clone)]
pub enum ExchangeDataStatus {
    Success,
    WaitingForFill,
    WaitingForTrigger,
    Resting(RestingOrder),
    Filled(FilledOrder),
    /// The exchange refused this order (for example for insufficient balance).
    Error(String),
    /// A status this library does not know.
    Unknown,
}

/// The statuses of the orders of an order response.
#[derive(Debug, Clone)]
pub struct ExchangeDataStatuses {
    pub statuses: Vec<ExchangeDataStatus>,
}

/// A successful exchange response: its type and its type-specific data.
#[derive(Debug)]
pub struct ExchangeResponse {
    pub response_type: String,
    pub data: Option<JsonValue>,
}

/// The raw outcome of an exchange request: a response, or an error message.
#[derive(Debug)]
pub enum ExchangeResponseStatusRaw {
    Accepted(ExchangeResponse),
    Rejected(String),
}

/// `pat` occurs in `s`.
pub open spec fn contains_text(s: Seq<char>, pat: Seq<char>) -> bool {
    exists|i: int| 0 <= i <= s.len() - pat.len() && #[trigger] s.subrange(i, i + pat.len()) == pat
}

/// Whether `pat` occurs in `s`.
pub fn contains_str(s: &str, pat: &str) -> (r: bool)
    ensures
        r == contains_text(s@, pat@),
{
    let sc = chars_of(s);
    let pc = chars_of(pat);
    if pc.len() > sc.len() {
        proof {
            assert forall|i: int| 0 <= i <= s@.len() - pat@.len() implies #[trigger] s@.subrange(
                i,
                i + pat@.len(),
            ) != pat@ by {}
        }
        return false;
    }
    let mut i: usize = 0;
    while i <= sc.len() - pc.len()
        invariant
            sc@ == s@,
            pc@ == pat@,
            pc.len() <= sc.len(),
            i <= sc.len() - pc.len() + 1,
            forall|j: int| 0 <= j < i ==> #[trigger] s@.subrange(j, j + pat@.len()) != pat@,
        decreases sc.len() - pc.len() + 1 - i,
    {
        let mut k: usize = 0;
        let mut same = true;
        while k < pc.len()
            invariant
                sc@ == s@,
                pc@ == pat@,
                i + pc.len() <= sc.len(),
                k <= pc.len(),
                same == (forall|t: int| 0 <= t < k ==> sc@[i + t] == pc@[t]),
            decreases pc.len() - k,
        {
            if sc[i + k] != pc[k] {
                same = false;
            }
            k = k + 1;
        }
        if same {
            proof {
                assert(s@.subrange(i as int, i + pat@.len()) =~= pat@);
            }
            return true;
        }
        proof {
            assert(s@.subrange(i as int, i + pat@.len()) != pat@) by {
                let t = choose|t: int| 0 <= t < pc.len() && sc@[i + t] != pc@[t];
                assert(s@.subrange(i as int, i + pat@.len())[t] == sc@[i + t]);
            }
        }
        i = i + 1;
    }
    false
}

/// The error for a refused request: too little staked HYPE when the message says
/// "insufficient staked", any other error otherwise.
pub open spec fn api_error_kind_is_stake(msg: Seq<char>) -> bool {
    contains_text(msg, "insufficient staked HYPE"@) || contains_text(msg, "insufficient staked"@)
}

impl ExchangeResponseStatusRaw {
    /// The response, or the exchange's error message classified as an [`ApiError`].
    pub fn into_result(self) -> (r: Result<ExchangeResponse, Error>)
        ensures
            self matches ExchangeResponseStatusRaw::Accepted(resp) ==> r matches Ok(x) && x == resp,
            self matches ExchangeResponseStatusRaw::Rejected(msg) ==> (r matches Err(Error::Api(e)) && (
            if api_error_kind_is_stake(msg@) {
                e matches ApiError::InsufficientStakedHype { message } && message@ == msg@
            } else {
                e matches ApiError::Other { message } && message@ == msg@
            })),
    {
        match self {
            ExchangeResponseStatusRaw::Accepted(response) => Ok(response),
            ExchangeResponseStatusRaw::Rejected(msg) => {
                let stake = contains_str(msg.as_str(), "insufficient staked HYPE") || contains_str(
                    msg.as_str(),
                    "insufficient staked",
                );
                let api_error = if stake {
                    ApiError::InsufficientStakedHype { message: msg }
                } else {
                    ApiError::Other { message: msg }
                };
                Err(Error::Api(api_error))
            },
        }
    }
}

/// A JSON non-negative integer that fits in a `u64`.
pub open spec fn json_u64(v: Json) -> Option<u64> {
    match v {
        Json::Number(JsonNumber::PosInt(u)) => Some(u),
        _ => None,
    }
}

pub open spec fn json_text(v: Json) -> Option<Seq<char>> {
    match v {
        Json::Str(s) => Some(s),
        _ => None,
    }
}

/// The oid of a resting order, read from `{"oid": n}` (other members ignored) or `[n]`.
pub open spec fn resting_from(v: Json) -> Option<u64> {
    match v {
        Json::Object(m) => match obj_get(m, "oid"@) {
            Some(x) => json_u64(x),
            None => None,
        },
        Json::Array(items) => if items.len() == 1 {
            json_u64(items[0])
        } else {
            None
        },
        _ => None,
    }
}

/// A filled order read from `{"totalSz": s, "avgPx": s, "oid": n}` (other members ignored)
/// or `[s, s, n]`.
pub open spec fn filled_from(v: Json) -> Option<(Seq<char>, Seq<char>, u64)> {
    match v {
        Json::Object(m) => match (obj_get(m, "totalSz"@), obj_get(m, "avgPx"@), obj_get(m, "oid"@)) {
            (Some(a), Some(b), Some(c)) => match (json_text(a), json_text(b), json_u64(c)) {
                (Some(x), Some(y), Some(z)) => Some((x, y, z)),
                _ => None,
            },
            _ => None,
        },
        Json::Array(items) => if items.len() == 3 {
            match (json_text(items[0]), json_text(items[1]), json_u64(items[2])) {
                (Some(x), Some(y), Some(z)) => Some((x, y, z)),
                _ => None,
            }
        } else {
            None
        },
        _ => None,
    }
}

/// The plain-value view of an order status.
pub enum StatusV {
    Success,
    WaitingForFill,
    WaitingForTrigger,
    Resting(u64),
    Filled(Seq<char>, Seq<char>, u64),
    Error(Seq<char>),
    Unknown,
}

impl ExchangeDataStatus {
    pub open spec fn view(&self) -> StatusV {
        match self {
            ExchangeDataStatus::Success => StatusV::Success,
            ExchangeDataStatus::WaitingForFill => StatusV::WaitingForFill,
            ExchangeDataStatus::WaitingForTrigger => StatusV::WaitingForTrigger,
            ExchangeDataStatus::Resting(r) => StatusV::Resting(r.oid),
            ExchangeDataStatus::Filled(f) => StatusV::Filled(f.total_sz@, f.avg_px@, f.oid),
            ExchangeDataStatus::Error(m) => StatusV::Error(m@),
            ExchangeDataStatus::Unknown => StatusV::Unknown,
        }
    }
}

/// A status variant named without data: the three unit statuses; a name of a status that
/// carries data is refused; any other name is an unknown status.
pub open spec fn unit_status(name: Seq<char>) -> Option<StatusV> {
    if name == "success"@ {
        Some(StatusV::Success)
    } else if name == "waitingForFill"@ {
        Some(StatusV::WaitingForFill)
    } else if name == "waitingForTrigger"@ {
        Some(StatusV::WaitingForTrigger)
    } else if name == "resting"@ || name == "filled"@ || name == "error"@ {
        None
    } else {
        Some(StatusV::Unknown)
    }
}

/// An order status read from its wire form: a variant name, or an object with a single
/// member naming the variant and holding its data (`null` for a variant without data).
pub open spec fn status_from(v: Json) -> Option<StatusV> {
    match v {
        Json::Str(name) => unit_status(name),
        Json::Object(m) => if m.len() != 1 {
            None
        } else {
            let name = m[0].0;
            let x = m[0].1;
            if name == "resting"@ {
                match resting_from(x) {
                    Some(oid) => Some(StatusV::Resting(oid)),
                    None => None,
                }
            } else if name == "filled"@ {
                match filled_from(x) {
                    Some(f) => Some(StatusV::Filled(f.0, f.1, f.2)),
                    None => None,
                }
            } else if name == "error"@ {
                match json_text(x) {
                    Some(msg) => Some(StatusV::Error(msg)),
                    None => None,
                }
            } else if x is Null {
                unit_status(name)
            } else {
                None
            }
        },
        _ => None,
    }
}

/// Every item reads as a status.
pub open spec fn statuses_of(items: Seq<Json>) -> Option<Seq<StatusV>>
    decreases items.len(),
{
    if items.len() == 0 {
        Some(Seq::empty())
    } else {
        match (statuses_of(items.drop_last()), status_from(items.last())) {
            (Some(s), Some(x)) => Some(s.push(x)),
            _ => None,
        }
    }
}

/// The statuses of an order response, read from `{"statuses": [..]}` (other members
/// ignored) or `[[..]]`.
pub open spec fn statuses_from(v: Json) -> Option<Seq<StatusV>> {
    match v {
        Json::Object(m) => match obj_get(m, "statuses"@) {
            Some(Json::Array(items)) => statuses_of(items),
            _ => None,
        },
        Json::Array(outer) => if outer.len() == 1 {
            match outer[0] {
                Json::Array(items) => statuses_of(items),
                _ => None,
            }
        } else {
            None
        },
        _ => None,
    }
}

pub open spec fn statuses_view(s: Seq<ExchangeDataStatus>) -> Seq<StatusV> {
    s.map_values(|x: ExchangeDataStatus| x@)
}

fn read_u64(v: &JsonValue) -> (r: Option<u64>)
    ensures
        r == json_u64(v@),
{
    match v {
        JsonValue::Number(JsonNumber::PosInt(u)) => Some(*u),
        _ => None,
    }
}

fn read_text(v: &JsonValue) -> (r: Option<String>)
    ensures
        r matches Some(s) ==> json_text(v@) == Some(s@),
        r is None ==> json_text(v@) is None,
{
    match v {
        JsonValue::String(s) => Some(s.clone()),
        _ => None,
    }
}

fn read_resting(v: &JsonValue) -> (r: Option<RestingOrder>)
    ensures
        r matches Some(o) ==> resting_from(v@) == Some(o.oid),
        r is None ==> resting_from(v@) is None,
{
    match v {
        JsonValue::Object(m) => match get_member(m, "oid") {
            Some(x) => match read_u64(x) {
                Some(oid) => Some(RestingOrder { oid }),
                None => None,
            },
            None => None,
        },
        JsonValue::Array(items) => {
            proof {
                lemma_json_seq_view(items@);
            }
            if items.len() == 1 {
                match read_u64(&items[0]) {
                    Some(oid) => Some(RestingOrder { oid }),
                    None => None,
                }
            } else {
                None
            }
        },
        _ => None,
    }
}

fn read_filled(v: &JsonValue) -> (r: Option<FilledOrder>)
    ensures
        r matches Some(f) ==> filled_from(v@) == Some((f.total_sz@, f.avg_px@, f.oid)),
        r is None ==> filled_from(v@) is None,
{
    match v {
        JsonValue::Object(m) => {
            let a = get_member(m, "totalSz");
            let b = get_member(m, "avgPx");
            let c = get_member(m, "oid");
            match (a, b, c) {
                (Some(a), Some(b), Some(c)) => match (read_text(a), read_text(b), read_u64(c)) {
                    (Some(x), Some(y), Some(z)) => Some(FilledOrder { total_sz: x, avg_px: y, oid: z }),
                    _ => None,
                },
                _ => None,
            }
        },
        JsonValue::Array(items) => {
            proof {
                lemma_json_seq_view(items@);
            }
            if items.len() == 3 {
                match (read_text(&items[0]), read_text(&items[1]), read_u64(&items[2])) {
                    (Some(x), Some(y), Some(z)) => Some(FilledOrder { total_sz: x, avg_px: y, oid: z }),
                    _ => None,
                }
            } else {
                None
            }
        },
        _ => None,
    }
}

fn text_is(s: &String, lit: &str) -> (r: bool)
    ensures
        r == (s@ == lit@),
{
    let l = lit.to_owned();
    *s == l
}

fn read_unit_status(name: &String) -> (r: Option<ExchangeDataStatus>)
    ensures
        r matches Some(x) ==> unit_status(name@) == Some(x@),
        r is None ==> unit_status(name@) is None,
{
    if text_is(name, "success") {
        Some(ExchangeDataStatus::Success)
    } else if text_is(name, "waitingForFill") {
        Some(ExchangeDataStatus::WaitingForFill)
    } else if text_is(name, "waitingForTrigger") {
        Some(ExchangeDataStatus::WaitingForTrigger)
    } else if text_is(name, "resting") || text_is(name, "filled") || text_is(name, "error") {
        None
    } else {
        Some(ExchangeDataStatus::Unknown)
    }
}

/// Reads an order status from its wire form.
pub fn read_status(v: &JsonValue) -> (r: Option<ExchangeDataStatus>)
    ensures
        r matches Some(x) ==> status_from(v@) == Some(x@),
        r is None ==> status_from(v@) is None,
{
    match v {
        JsonValue::String(name) => read_unit_status(name),
        JsonValue::Object(m) => {
            proof {
                lemma_members_view(m@);
            }
            if m.len() != 1 {
                return None;
            }
            let name = &m[0].0;
            let x = &m[0].1;
            if text_is(name, "resting") {
                match read_resting(x) {
                    Some(o) => Some(ExchangeDataStatus::Resting(o)),
                    None => None,
                }
            } else if text_is(name, "filled") {
                match read_filled(x) {
                    Some(f) => Some(ExchangeDataStatus::Filled(f)),
                    None => None,
                }
            } else if text_is(name, "error") {
                match read_text(x) {
                    Some(msg) => Some(ExchangeDataStatus::Error(msg)),
                    None => None,
                }
            } else {
                match x {
                    JsonValue::Null => read_unit_status(name),
                    _ => None,
                }
            }
        },
        _ => None,
    }
}

fn read_status_list(items: &Vec<JsonValue>) -> (r: Option<Vec<ExchangeDataStatus>>)
    ensures
        r matches Some(s) ==> statuses_of(json_seq_view(items@)) == Some(statuses_view(s@)),
        r is None ==> statuses_of(json_seq_view(items@)) is None,
{
    proof {
        lemma_json_seq_view(items@);
    }
    let ghost jv = json_seq_view(items@);
    let mut out: Vec<ExchangeDataStatus> = Vec::new();
    let mut i: usize = 0;
    while i < items.len()
        invariant
            i <= items.len(),
            jv == json_seq_view(items@),
            jv.len() == items.len(),
            forall|j: int| 0 <= j < items.len() ==> #[trigger] jv[j] == json_view(items@[j]),
            statuses_of(jv.subrange(0, i as int)) == Some(statuses_view(out@)),
        decreases items.len() - i,
    {
        let s = read_status(&items[i]);
        proof {
            assert(jv.subrange(0, i + 1).drop_last() =~= jv.subrange(0, i as int));
            assert(jv.subrange(0, i + 1).last() == jv[i as int]);
        }
        match s {
            Some(x) => {
                let ghost before = out@;
                out.push(x);
                proof {
                    assert(statuses_view(out@) =~= statuses_view(before).push(x@));
                }
            },
            None => {
                proof {
                    lemma_statuses_of_prefix_none(jv, (i + 1) as int);
                }
                return None;
            },
        }
        i = i + 1;
    }
    proof {
        assert(jv.subrange(0, i as int) =~= jv);
    }
    Some(out)
}

/// When a prefix has an item that does not read as a status, neither does the whole.
proof fn lemma_statuses_of_prefix_none(items: Seq<Json>, n: int)
    requires
        0 <= n <= items.len(),
        statuses_of(items.subrange(0, n)) is None,
    ensures
        statuses_of(items) is None,
    decreases items.len() - n,
{
    if n < items.len() {
        assert(items.subrange(0, n + 1).drop_last() =~= items.subrange(0, n));
        lemma_statuses_of_prefix_none(items, n + 1);
    } else {
        assert(items.subrange(0, n) =~= items);
    }
}

/// Reads the statuses of an order response.
pub fn read_statuses(v: &JsonValue) -> (r: Option<ExchangeDataStatuses>)
    ensures
        r matches Some(s) ==> statuses_from(v@) == Some(statuses_view(s.statuses@)),
        r is None ==> statuses_from(v@) is None,
{
    match v {
        JsonValue::Object(m) => match get_member(m, "statuses") {
            Some(JsonValue::Array(items)) => match read_status_list(items) {
                Some(s) => Some(ExchangeDataStatuses { statuses: s }),
                None => None,
            },
            _ => None,
        },
        JsonValue::Array(outer) => {
            proof {
                lemma_json_seq_view(outer@);
            }
            if outer.len() == 1 {
                match &outer[0] {
                    JsonValue::Array(items) => match read_status_list(items) {
                        Some(s) => Some(ExchangeDataStatuses { statuses: s }),
                        None => None,
                    },
                    _ => None,
                }
            } else {
                None
            }
        },
        _ => None,
    }
}

/// Each item is a string.
pub open spec fn texts_of(items: Seq<Json>) -> Option<Seq<Seq<char>>>
    decreases items.len(),
{
    if items.len() == 0 {
        Some(Seq::empty())
    } else {
        match (texts_of(items.drop_last()), items.last()) {
            (Some(s), Json::Str(t)) => Some(s.push(t)),
            _ => None,
        }
    }
}

pub open spec fn data_view(d: Option<JsonValue>) -> Option<Json> {
    match d {
        Some(v) => Some(v@),
        None => None,
    }
}

impl ExchangeResponse {
    /// The order statuses, when the response is of type `"order"` and its data reads as
    /// statuses.
    pub fn order_data(&self) -> (r: Option<ExchangeDataStatuses>)
        ensures
            r matches Some(s) ==> self.response_type@ == "order"@ && (data_view(self.data) matches Some(
                d,
            ) && statuses_from(d) == Some(statuses_view(s.statuses@))),
            r is None ==> self.response_type@ != "order"@ || data_view(self.data) is None
                || statuses_from(data_view(self.data)->0) is None,
    {
        if !text_is(&self.response_type, "order") {
            return None;
        }
        match &self.data {
            Some(v) => read_statuses(v),
            None => None,
        }
    }

    /// The messages, when the response is of type `"setGlobal"` and its data is an array
    /// of strings.
    pub fn set_global_messages(&self) -> (r: Option<Vec<String>>)
        ensures
            r matches Some(msgs) ==> self.response_type@ == "setGlobal"@ && (data_view(self.data)
                matches Some(Json::Array(items)) && texts_of(items) == Some(
                msgs@.map_values(|m: String| m@),
            )),
            r is None ==> self.response_type@ != "setGlobal"@ || !(data_view(self.data) matches Some(
                Json::Array(items),
            ) && texts_of(items) is Some),
    {
        if !text_is(&self.response_type, "setGlobal") {
            return None;
        }
        let arr = match &self.data {
            Some(JsonValue::Array(items)) => items,
            _ => {
                return None;
            },
        };
        proof {
            lemma_json_seq_view(arr@);
        }
        let ghost jv = json_seq_view(arr@);
        let mut msgs: Vec<String> = Vec::new();
        let mut i: usize = 0;
        while i < arr.len()
            invariant
                self.data == Some(JsonValue::Array(*arr)),
                i <= arr.len(),
                jv == json_seq_view(arr@),
                jv.len() == arr.len(),
                forall|j: int| 0 <= j < arr.len() ==> #[trigger] jv[j] == json_view(arr@[j]),
                texts_of(jv.subrange(0, i as int)) == Some(msgs@.map_values(|m: String| m@)),
            decreases arr.len() - i,
        {
            proof {
                assert(jv.subrange(0, i + 1).drop_last() =~= jv.subrange(0, i as int));
                assert(jv.subrange(0, i + 1).last() == jv[i as int]);
            }
            match &arr[i] {
                JsonValue::String(t) => {
                    let ghost before = msgs@;
                    msgs.push(t.clone());
                    proof {
                        assert(msgs@.map_values(|m: String| m@) =~= before.map_values(|m: String| m@).push(t@));
                    }
                },
                _ => {
                    proof {
                        assert(!(jv[i as int] is Str));
                        assert(texts_of(jv.subrange(0, i + 1)) is None);
                        lemma_texts_of_prefix_none(jv, (i + 1) as int);
                        assert(data_view(self.data) == Some(Json::Array(jv)));
                    }
                    return None;
                },
            }
            i = i + 1;
        }
        proof {
            assert(jv.subrange(0, i as int) =~= jv);
        }
        Some(msgs)
    }
}

/// When a prefix has an item that is not a string, so has the whole.
proof fn lemma_texts_of_prefix_none(items: Seq<Json>, n: int)
    requires
        0 <= n <= items.len(),
        texts_of(items.subrange(0, n)) is None,
    ensures
        texts_of(items) is None,
    decreases items.len() - n,
{
    if n < items.len() {
        assert(items.subrange(0, n + 1).drop_last() =~= items.subrange(0, n));
        lemma_texts_of_prefix_none(items, n + 1);
    } else {
        assert(items.subrange(0, n) =~= items);
    }
}


/// The wire form of a resting status: `{"resting": <object>}`.
pub open spec fn resting_status_json(m: Seq<(Seq<char>, Json)>) -> Json {
    Json::Object(seq![("resting"@, Json::Object(m))])
}

/// A resting order's status reads its `oid` whatever other members the object has (such
/// as a client order id `cloid`).
pub proof fn lemma_resting_ignores_other_members(m: Seq<(Seq<char>, Json)>, oid: u64)
    requires
        obj_get(m, "oid"@) == Some(Json::Number(JsonNumber::PosInt(oid))),
    ensures
        resting_from(Json::Object(m)) == Some(oid),
        status_from(resting_status_json(m)) == Some(StatusV::Resting(oid)),
{
    reveal_strlit("resting");
}

/// An order response whose statuses are all resting objects, each with an `oid` and any
/// other members, reads as those resting orders, in order.
pub proof fn lemma_resting_statuses(ms: Seq<Seq<(Seq<char>, Json)>>, oids: Seq<u64>)
    requires
        ms.len() == oids.len(),
        forall|i: int| 0 <= i < ms.len() ==> obj_get(#[trigger] ms[i], "oid"@) == Some(
            Json::Number(JsonNumber::PosInt(oids[i])),
        ),
    ensures
        statuses_of(ms.map_values(|m: Seq<(Seq<char>, Json)>| resting_status_json(m))) == Some(
            oids.map_values(|o: u64| StatusV::Resting(o)),
        ),
        statuses_from(
            Json::Object(
                seq![("statuses"@, Json::Array(ms.map_values(|m: Seq<(Seq<char>, Json)>| resting_status_json(m))))],
            ),
        ) == Some(oids.map_values(|o: u64| StatusV::Resting(o))),
    decreases ms.len(),
{
    let items = ms.map_values(|m: Seq<(Seq<char>, Json)>| resting_status_json(m));
    if ms.len() > 0 {
        let n = ms.len() - 1;
        lemma_resting_statuses(ms.drop_last(), oids.drop_last());
        assert(items.drop_last() =~= ms.drop_last().map_values(|m: Seq<(Seq<char>, Json)>| resting_status_json(m)));
        lemma_resting_ignores_other_members(ms[n], oids[n]);
        assert(oids.map_values(|o: u64| StatusV::Resting(o)) =~= oids.drop_last().map_values(|o: u64| StatusV::Resting(o)).push(StatusV::Resting(oids[n])));
    } else {
        assert(items =~= Seq::<Json>::empty());
        assert(oids.map_values(|o: u64| StatusV::Resting(o)) =~= Seq::<StatusV>::empty());
    }
    let outer = seq![("statuses"@, Json::Array(items))];
    crate::wire::lemma_obj_find_single("statuses"@, Json::Array(items), "statuses"@);
}

} // verus!
