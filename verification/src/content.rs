//! The content of a whisper as given on the command line: a JSON object whose
//! fields fill in the whisper of the named kind, and the lifetime it gets.

use vstd::prelude::*;
use serde_json::Value;
use crate::whisper::{default_ttl_of, variant_name_of, WhisperType};
use crate::filter::str_is;

verus! {

/// Bit pattern of the `f64` value `1.0`.
pub const F64_ONE_BITS: u64 = 0x3FF0_0000_0000_0000u64;

/// Bit pattern of the `f64` value `0.0`.
pub const F64_ZERO_BITS: u64 = 0u64;

/// Bit pattern of the `f64` value `0.5`.
pub const F64_HALF_BITS: u64 = 0x3FE0_0000_0000_0000u64;

/// A JSON value as far as whisper content is concerned.
pub enum JsonScalar {
    /// A number, as the bit pattern of its `f64` value.
    Number(u64),
    /// A string.
    Text(String),
    /// An array; each element is its string, or `None` when it is not a string.
    List(Vec<Option<String>>),
    /// Anything else: `null`, a boolean, an object.
    Other,
}

/// Abstract value of a [`JsonScalar`].
pub enum JsonScalarView {
    Number(u64),
    Text(Seq<char>),
    List(Seq<Option<Seq<char>>>),
    Other,
}

impl View for JsonScalar {
    type V = JsonScalarView;

    open spec fn view(&self) -> JsonScalarView {
        match self {
            JsonScalar::Number(b) => JsonScalarView::Number(*b),
            JsonScalar::Text(s) => JsonScalarView::Text(s@),
            JsonScalar::List(items) => JsonScalarView::List(
                items@.map_values(|o: Option<String>| opt_text(o)),
            ),
            JsonScalar::Other => JsonScalarView::Other,
        }
    }
}

/// The characters of an optional string.
pub open spec fn opt_text(o: Option<String>) -> Option<Seq<char>> {
    match o {
        Some(s) => Some(s@),
        None => None,
    }
}

/// The fields of a JSON object, each key once.
pub struct JsonFields {
    pub entries: Vec<(String, JsonScalar)>,
}

/// Abstract value of a [`JsonFields`]: its entries' keys and values.
pub open spec fn entries_view(f: JsonFields) -> Seq<(Seq<char>, JsonScalarView)> {
    f.entries@.map_values(|e: (String, JsonScalar)| (e.0@, e.1@))
}

/// Abstract value of the outcome of reading JSON fields.
pub open spec fn fields_outcome_view(r: Result<JsonFields, String>) -> Result<Seq<(Seq<char>, JsonScalarView)>, Seq<char>> {
    match r {
        Ok(f) => Ok(entries_view(f)),
        Err(e) => Err(e@),
    }
}

/// What serde_json makes of `content` as a `serde_json::Value`: when it is no
/// JSON text, `Err` with serde_json's error message; when it is a JSON object,
/// its fields (each key once, the last occurrence winning) with their values;
/// when it is any other JSON value, no fields.
pub uninterp spec fn json_object_fields(content: Seq<char>) -> Result<Seq<(Seq<char>, JsonScalarView)>, Seq<char>>;

/// Parses `content` with `serde_json::from_str::<serde_json::Value>` and
/// converts the top-level object's fields, one for one, into [`JsonScalar`]s
/// (numbers through `as_f64` and `to_bits`, strings as they are, arrays element
/// by element through `as_str`); a JSON value that is not an object gives no
/// fields, a parse failure the error's text. The claim is only that the outcome
/// is [`json_object_fields`] of the content.
#[verifier::external_body]
fn read_json_fields(content: &str) -> (res: Result<JsonFields, String>)
    ensures
        fields_outcome_view(res) == json_object_fields(content@),
{
    match serde_json::from_str::<Value>(content) {
        Ok(Value::Object(map)) => Ok(JsonFields { entries: map.into_iter().map(|(k, v)| (k, match v {
            Value::Number(n) => n.as_f64().map_or(JsonScalar::Other, |f| JsonScalar::Number(f.to_bits())),
            Value::String(s) => JsonScalar::Text(s),
            Value::Array(a) => JsonScalar::List(a.iter().map(|i| i.as_str().map(String::from)).collect()),
            _ => JsonScalar::Other,
        })).collect() }),
        Ok(_) => Ok(JsonFields { entries: Vec::new() }),
        Err(e) => Err(e.to_string()),
    }
}

/// The value of the first field of `entries` named `key`.
pub open spec fn field(entries: Seq<(Seq<char>, JsonScalarView)>, key: Seq<char>) -> Option<JsonScalarView>
    decreases entries.len(),
{
    if entries.len() == 0 {
        None
    } else if entries[0].0 == key {
        Some(entries[0].1)
    } else {
        field(entries.drop_first(), key)
    }
}

/// The number in field `key`, or `default` when there is none.
pub open spec fn number_or(entries: Seq<(Seq<char>, JsonScalarView)>, key: Seq<char>, default: u64) -> u64 {
    match field(entries, key) {
        Some(JsonScalarView::Number(b)) => b,
        _ => default,
    }
}

/// The string in field `key`, if there is one.
pub open spec fn text_at(entries: Seq<(Seq<char>, JsonScalarView)>, key: Seq<char>) -> Option<Seq<char>> {
    match field(entries, key) {
        Some(JsonScalarView::Text(s)) => Some(s),
        _ => None,
    }
}

/// The string in field `key`, or `default` when there is none.
pub open spec fn text_or(entries: Seq<(Seq<char>, JsonScalarView)>, key: Seq<char>, default: Seq<char>) -> Seq<char> {
    match text_at(entries, key) {
        Some(s) => s,
        None => default,
    }
}

/// The strings of `items`, in order, leaving out what is not a string.
pub open spec fn strings_of(items: Seq<Option<Seq<char>>>) -> Seq<Seq<char>>
    decreases items.len(),
{
    if items.len() == 0 {
        Seq::empty()
    } else {
        let rest = strings_of(items.drop_last());
        match items.last() {
            Some(s) => rest.push(s),
            None => rest,
        }
    }
}

/// The strings of the array in field `key`; none when there is no array.
pub open spec fn text_list(entries: Seq<(Seq<char>, JsonScalarView)>, key: Seq<char>) -> Seq<Seq<char>> {
    match field(entries, key) {
        Some(JsonScalarView::List(items)) => strings_of(items),
        _ => Seq::empty(),
    }
}

/// The kind names that the command line accepts.
pub open spec fn known_kind(kind: Seq<char>) -> bool {
    ||| kind == "status"@
    ||| kind == "discovery"@
    ||| kind == "help"@
    ||| kind == "insight"@
    ||| kind == "trust"@
    ||| kind == "alert"@
}

/// `res` is the whisper kind that the name `kind` and the JSON fields
/// `fields` make, or the error they give: a JSON failure first, then an
/// unknown name; missing or mistyped fields take their defaults (health 1.0,
/// load 0.0, confidence and trust score 0.5, severity `info`, other strings
/// empty, tags none, source theorem absent).
pub open spec fn parsed_as(
    kind: Seq<char>,
    fields: Result<Seq<(Seq<char>, JsonScalarView)>, Seq<char>>,
    res: Result<WhisperType, String>,
) -> bool {
    match fields {
        Err(e) => res matches Err(m) && m@ == "invalid JSON content: "@ + e,
        Ok(f) => if kind == "status"@ {
            res matches Ok(WhisperType::Status { health, load })
                && health == number_or(f, "health"@, F64_ONE_BITS)
                && load == number_or(f, "load"@, F64_ZERO_BITS)
        } else if kind == "discovery"@ {
            res matches Ok(WhisperType::Discovery { service, endpoint })
                && service@ == text_or(f, "service"@, Seq::empty())
                && endpoint@ == text_or(f, "endpoint"@, Seq::empty())
        } else if kind == "help"@ {
            res matches Ok(WhisperType::Help { question, tags })
                && question@ == text_or(f, "question"@, Seq::empty())
                && tags@.map_values(|s: String| s@) == text_list(f, "tags"@)
        } else if kind == "insight"@ {
            res matches Ok(WhisperType::Insight { summary, confidence, source_theorem })
                && summary@ == text_or(f, "summary"@, Seq::empty())
                && confidence == number_or(f, "confidence"@, F64_HALF_BITS)
                && opt_text(source_theorem) == text_at(f, "source_theorem"@)
        } else if kind == "trust"@ {
            res matches Ok(WhisperType::Trust { agent, trust_score })
                && agent@ == text_or(f, "agent"@, Seq::empty())
                && trust_score == number_or(f, "trust_score"@, F64_HALF_BITS)
        } else if kind == "alert"@ {
            res matches Ok(WhisperType::Alert { severity, message })
                && severity@ == text_or(f, "severity"@, "info"@)
                && message@ == text_or(f, "message"@, Seq::empty())
        } else {
            res matches Err(m) && m@ == "unknown whisper type: "@ + kind
        },
    }
}

/// A kind is made exactly when the content is JSON and the name is one of
/// `status`, `discovery`, `help`, `insight`, `trust`, `alert`; the kind made
/// bears that name.
pub proof fn lemma_parsed_kind_is_named(
    kind: Seq<char>,
    fields: Result<Seq<(Seq<char>, JsonScalarView)>, Seq<char>>,
    res: Result<WhisperType, String>,
)
    requires
        parsed_as(kind, fields, res),
    ensures
        res is Ok <==> (fields is Ok && known_kind(kind)),
        res matches Ok(t) ==> variant_name_of(t) == kind,
{
}

/// Each field of the kind made is read from the JSON field of its own name:
/// where that field holds a value of the field's type, the kind carries that
/// value; where the object has no field of that name, the kind carries the
/// default (health 1.0, load 0.0, confidence and trust score 0.5, severity
/// `info`, other strings empty, no tags, no source theorem).
pub proof fn lemma_fields_read_from_own_keys(
    kind: Seq<char>,
    f: Seq<(Seq<char>, JsonScalarView)>,
    res: Result<WhisperType, String>,
)
    requires
        parsed_as(kind, Ok(f), res),
    ensures
        kind == "status"@ ==> (res matches Ok(WhisperType::Status { health, load }) && {
            &&& (field(f, "health"@) matches Some(JsonScalarView::Number(b)) ==> health == b)
            &&& (field(f, "load"@) matches Some(JsonScalarView::Number(b)) ==> load == b)
            &&& (field(f, "health"@) is None ==> health == 0x3FF0_0000_0000_0000u64)
            &&& (field(f, "load"@) is None ==> load == 0u64)
        }),
        kind == "discovery"@ ==> (res matches Ok(WhisperType::Discovery { service, endpoint }) && {
            &&& (field(f, "service"@) matches Some(JsonScalarView::Text(t)) ==> service@ == t)
            &&& (field(f, "endpoint"@) matches Some(JsonScalarView::Text(t)) ==> endpoint@ == t)
            &&& (field(f, "service"@) is None ==> service@.len() == 0)
            &&& (field(f, "endpoint"@) is None ==> endpoint@.len() == 0)
        }),
        kind == "help"@ ==> (res matches Ok(WhisperType::Help { question, tags }) && {
            &&& (field(f, "question"@) matches Some(JsonScalarView::Text(t)) ==> question@ == t)
            &&& (field(f, "question"@) is None ==> question@.len() == 0)
            &&& (field(f, "tags"@) is None ==> tags@.len() == 0)
            &&& (field(f, "tags"@) matches Some(JsonScalarView::List(items)) ==> (
                forall|t: Seq<char>| items.contains(Some(t)) <==> tags@.map_values(|s: String| s@).contains(t)))
        }),
        kind == "insight"@ ==> (res matches Ok(WhisperType::Insight { summary, confidence, source_theorem }) && {
            &&& (field(f, "summary"@) matches Some(JsonScalarView::Text(t)) ==> summary@ == t)
            &&& (field(f, "confidence"@) matches Some(JsonScalarView::Number(b)) ==> confidence == b)
            &&& (field(f, "source_theorem"@) matches Some(JsonScalarView::Text(t)) ==> source_theorem matches Some(st) && st@ == t)
            &&& (field(f, "summary"@) is None ==> summary@.len() == 0)
            &&& (field(f, "confidence"@) is None ==> confidence == 0x3FE0_0000_0000_0000u64)
            &&& (field(f, "source_theorem"@) is None ==> source_theorem is None)
        }),
        kind == "trust"@ ==> (res matches Ok(WhisperType::Trust { agent, trust_score }) && {
            &&& (field(f, "agent"@) matches Some(JsonScalarView::Text(t)) ==> agent@ == t)
            &&& (field(f, "trust_score"@) matches Some(JsonScalarView::Number(b)) ==> trust_score == b)
            &&& (field(f, "agent"@) is None ==> agent@.len() == 0)
            &&& (field(f, "trust_score"@) is None ==> trust_score == 0x3FE0_0000_0000_0000u64)
        }),
        kind == "alert"@ ==> (res matches Ok(WhisperType::Alert { severity, message }) && {
            &&& (field(f, "severity"@) matches Some(JsonScalarView::Text(t)) ==> severity@ == t)
            &&& (field(f, "message"@) matches Some(JsonScalarView::Text(t)) ==> message@ == t)
            &&& (field(f, "severity"@) is None ==> severity@ == seq!['i', 'n', 'f', 'o'])
            &&& (field(f, "message"@) is None ==> message@.len() == 0)
        }),
{
    reveal_strlit("");
    reveal_strlit("info");
    reveal_strlit("status");
    reveal_strlit("discovery");
    reveal_strlit("help");
    reveal_strlit("insight");
    reveal_strlit("trust");
    reveal_strlit("alert");
    assert(""@ =~= Seq::<char>::empty());
    assert("info"@ =~= seq!['i', 'n', 'f', 'o']);
    lemma_kind_names_distinct();
    if kind == "help"@ {
        let tags = match res {
            Ok(WhisperType::Help { tags, .. }) => tags,
            _ => arbitrary(),
        };
        assert(tags@.map_values(|s: String| s@) == text_list(f, "tags"@));
        if let Some(JsonScalarView::List(items)) = field(f, "tags"@) {
            lemma_strings_of_members(items);
            assert(tags@.map_values(|s: String| s@) == strings_of(items));
        } else {
            assert(tags@.map_values(|s: String| s@).len() == 0);
        }
    }
}

/// The six kind names are pairwise different.
proof fn lemma_kind_names_distinct()
    ensures
        "status"@ != "discovery"@,
        "status"@ != "help"@,
        "status"@ != "insight"@,
        "status"@ != "trust"@,
        "status"@ != "alert"@,
        "discovery"@ != "help"@,
        "discovery"@ != "insight"@,
        "discovery"@ != "trust"@,
        "discovery"@ != "alert"@,
        "help"@ != "insight"@,
        "help"@ != "trust"@,
        "help"@ != "alert"@,
        "insight"@ != "trust"@,
        "insight"@ != "alert"@,
        "trust"@ != "alert"@,
{
    reveal_strlit("status");
    reveal_strlit("discovery");
    reveal_strlit("help");
    reveal_strlit("insight");
    reveal_strlit("trust");
    reveal_strlit("alert");
    assert("status"@.len() == 6);
    assert("discovery"@.len() == 9);
    assert("help"@.len() == 4);
    assert("insight"@.len() == 7);
    assert("trust"@.len() == 5);
    assert("alert"@.len() == 5);
    assert("trust"@[0] != "alert"@[0]);
}

/// The strings kept from a list are exactly the strings it holds.
pub proof fn lemma_strings_of_members(items: Seq<Option<Seq<char>>>)
    ensures
        forall|t: Seq<char>| items.contains(Some(t)) <==> strings_of(items).contains(t),
    decreases items.len(),
{
    if items.len() > 0 {
        let rest = items.drop_last();
        lemma_strings_of_members(rest);
        assert forall|t: Seq<char>| items.contains(Some(t)) <==> strings_of(items).contains(t) by {
            if items.contains(Some(t)) {
                let i = choose|i: int| 0 <= i < items.len() && items[i] == Some(t);
                if i < items.len() - 1 {
                    assert(rest[i] == Some(t));
                    assert(rest.contains(Some(t)));
                    assert(strings_of(rest).contains(t));
                    let k = choose|k: int| 0 <= k < strings_of(rest).len() && strings_of(rest)[k] == t;
                    match items.last() {
                        Some(x) => assert(strings_of(items)[k] == t),
                        None => assert(strings_of(items)[k] == t),
                    }
                } else {
                    assert(strings_of(items).last() == t);
                }
            }
            if strings_of(items).contains(t) {
                let k = choose|k: int| 0 <= k < strings_of(items).len() && strings_of(items)[k] == t;
                if k < strings_of(rest).len() {
                    match items.last() {
                        Some(x) => assert(strings_of(rest)[k] == t),
                        None => assert(strings_of(rest)[k] == t),
                    }
                    assert(strings_of(rest).contains(t));
                    let i = choose|i: int| 0 <= i < rest.len() && rest[i] == Some(t);
                    assert(items[i] == Some(t));
                } else {
                    assert(items.last() == Some(t));
                    assert(items[items.len() - 1] == Some(t));
                }
            }
        }
    }
}

/// The command line's own example: for the kind `discovery` and a JSON object
/// with a string `service` and a string `endpoint` (in either order), the
/// discovery carries that service and that endpoint.
pub proof fn lemma_discovery_example(s: Seq<char>, e: Seq<char>, res: Result<WhisperType, String>)
    requires
        parsed_as("discovery"@, Ok(seq![("endpoint"@, JsonScalarView::Text(e)), ("service"@, JsonScalarView::Text(s))]), res)
        || parsed_as("discovery"@, Ok(seq![("service"@, JsonScalarView::Text(s)), ("endpoint"@, JsonScalarView::Text(e))]), res),
    ensures
        res matches Ok(WhisperType::Discovery { service, endpoint }) && service@ == s && endpoint@ == e,
{
    reveal_strlit("service");
    reveal_strlit("endpoint");
    assert("service"@ != "endpoint"@) by {
        assert("service"@.len() != "endpoint"@.len());
    }
    let f1 = seq![("endpoint"@, JsonScalarView::Text(e)), ("service"@, JsonScalarView::Text(s))];
    let f2 = seq![("service"@, JsonScalarView::Text(s)), ("endpoint"@, JsonScalarView::Text(e))];
    assert(f1.drop_first().drop_first() =~= Seq::<(Seq<char>, JsonScalarView)>::empty());
    assert(f2.drop_first().drop_first() =~= Seq::<(Seq<char>, JsonScalarView)>::empty());
    assert(f1.drop_first()[0] == ("service"@, JsonScalarView::Text(s)));
    assert(f2.drop_first()[0] == ("endpoint"@, JsonScalarView::Text(e)));
    assert(field(f1.drop_first(), "service"@) == Some(JsonScalarView::Text(s)));
    assert(field(f2.drop_first(), "endpoint"@) == Some(JsonScalarView::Text(e)));
    assert(field(f1, "service"@) == Some(JsonScalarView::Text(s)));
    assert(field(f1, "endpoint"@) == Some(JsonScalarView::Text(e)));
    assert(field(f2, "service"@) == Some(JsonScalarView::Text(s)));
    assert(field(f2, "endpoint"@) == Some(JsonScalarView::Text(e)));
    if parsed_as("discovery"@, Ok(f1), res) {
        lemma_fields_read_from_own_keys("discovery"@, f1, res);
    } else {
        lemma_fields_read_from_own_keys("discovery"@, f2, res);
    }
}

fn find_field<'a>(fields: &'a JsonFields, key: &str) -> (res: Option<&'a JsonScalar>)
    ensures
        match res {
            Some(v) => field(entries_view(*fields), key@) == Some(v@),
            None => field(entries_view(*fields), key@) is None,
        },
{
    let ghost all = entries_view(*fields);
    let mut i: usize = 0;
    assert(all.skip(0) =~= all);
    while i < fields.entries.len()
        invariant
            i <= fields.entries.len(),
            all == entries_view(*fields),
            field(all, key@) == field(all.skip(i as int), key@),
        decreases fields.entries.len() - i,
    {
        proof {
            assert(all.skip(i as int)[0] == all[i as int]);
            assert(all.skip(i as int).drop_first() =~= all.skip(i + 1));
        }
        if str_is(fields.entries[i].0.as_str(), key) {
            return Some(&fields.entries[i].1);
        }
        i = i + 1;
    }
    proof {
        assert(all.skip(i as int) =~= Seq::<(Seq<char>, JsonScalarView)>::empty());
    }
    None
}

fn number_field(fields: &JsonFields, key: &str, default: u64) -> (res: u64)
    ensures
        res == number_or(entries_view(*fields), key@, default),
{
    match find_field(fields, key) {
        Some(JsonScalar::Number(b)) => *b,
        _ => default,
    }
}

fn text_field(fields: &JsonFields, key: &str) -> (res: Option<String>)
    ensures
        opt_text(res) == text_at(entries_view(*fields), key@),
{
    match find_field(fields, key) {
        Some(JsonScalar::Text(s)) => Some(s.clone()),
        _ => None,
    }
}

fn text_field_or(fields: &JsonFields, key: &str, default: &str) -> (res: String)
    ensures
        res@ == text_or(entries_view(*fields), key@, default@),
{
    match text_field(fields, key) {
        Some(s) => s,
        None => String::from_str(default),
    }
}

fn text_list_field(fields: &JsonFields, key: &str) -> (res: Vec<String>)
    ensures
        res@.map_values(|s: String| s@) == text_list(entries_view(*fields), key@),
{
    let mut out: Vec<String> = Vec::new();
    match find_field(fields, key) {
        Some(JsonScalar::List(items)) => {
            let ghost views = items@.map_values(|o: Option<String>| opt_text(o));
            let mut i: usize = 0;
            while i < items.len()
                invariant
                    i <= items.len(),
                    views == items@.map_values(|o: Option<String>| opt_text(o)),
                    out@.map_values(|s: String| s@) == strings_of(views.take(i as int)),
                decreases items.len() - i,
            {
                proof {
                    assert(views.take(i + 1).drop_last() =~= views.take(i as int));
                    assert(views.take(i + 1).last() == opt_text(items@[i as int]));
                }
                match &items[i] {
                    Some(s) => {
                        out.push(s.clone());
                        assert(out@.map_values(|s: String| s@) =~= strings_of(views.take(i + 1)));
                    },
                    None => {
                        assert(out@.map_values(|s: String| s@) =~= strings_of(views.take(i + 1)));
                    },
                }
                i = i + 1;
            }
            proof {
                assert(views.take(items.len() as int) =~= views);
            }
        },
        _ => {
            assert(out@.map_values(|s: String| s@) =~= Seq::<Seq<char>>::empty());
        },
    }
    out
}

/// The whisper kind that the name `kind_name` and the outcome `fields` of
/// reading its JSON content make, or why none is made.
pub fn whisper_type_from_fields(kind_name: &str, fields: Result<JsonFields, String>) -> (res: Result<WhisperType, String>)
    ensures
        parsed_as(kind_name@, fields_outcome_view(fields), res),
{
    let f = match fields {
        Ok(f) => f,
        Err(e) => {
            return Err(String::from_str("invalid JSON content: ").concat(e.as_str()));
        },
    };
    proof {
        reveal_strlit("");
        assert(""@ =~= Seq::<char>::empty());
    }
    if str_is(kind_name, "status") {
        Ok(WhisperType::Status {
            health: number_field(&f, "health", F64_ONE_BITS),
            load: number_field(&f, "load", F64_ZERO_BITS),
        })
    } else if str_is(kind_name, "discovery") {
        Ok(WhisperType::Discovery {
            service: text_field_or(&f, "service", ""),
            endpoint: text_field_or(&f, "endpoint", ""),
        })
    } else if str_is(kind_name, "help") {
        Ok(WhisperType::Help { question: text_field_or(&f, "question", ""), tags: text_list_field(&f, "tags") })
    } else if str_is(kind_name, "insight") {
        Ok(WhisperType::Insight {
            summary: text_field_or(&f, "summary", ""),
            confidence: number_field(&f, "confidence", F64_HALF_BITS),
            source_theorem: text_field(&f, "source_theorem"),
        })
    } else if str_is(kind_name, "trust") {
        Ok(WhisperType::Trust {
            agent: text_field_or(&f, "agent", ""),
            trust_score: number_field(&f, "trust_score", F64_HALF_BITS),
        })
    } else if str_is(kind_name, "alert") {
        Ok(WhisperType::Alert {
            severity: text_field_or(&f, "severity", "info"),
            message: text_field_or(&f, "message", ""),
        })
    } else {
        Err(String::from_str("unknown whisper type: ").concat(kind_name))
    }
}

/// The whisper kind named `kind_name` whose fields are given by the JSON
/// object `content`, or why none is made.
pub fn parse_whisper_type(kind_name: &str, content: &str) -> (res: Result<WhisperType, String>)
    ensures
        parsed_as(kind_name@, json_object_fields(content@), res),
{
    whisper_type_from_fields(kind_name, read_json_fields(content))
}

/// The lifetime a new whisper gets: the one asked for, or else its kind's default.
pub fn effective_ttl(requested: Option<u64>, whisper_type: &WhisperType) -> (res: u64)
    ensures
        res == match requested {
            Some(t) => t,
            None => default_ttl_of(*whisper_type),
        },
{
    match requested {
        Some(t) => t,
        None => whisper_type.default_ttl_seconds(),
    }
}

} // verus!
