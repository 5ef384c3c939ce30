//! The exchange store: sanitization of ingested records, append of requests,
//! and last-in-first-out pairing of responses with open exchanges.

use vstd::prelude::*;

use vstd::string::StrSliceExecFns;

use crate::app::App;
use crate::json::{jv_field_views, lemma_jv_field_views, Jv, JsonValue};
use crate::model::{
    copy_opt_json, copy_opt_string, ExchangeV, JsonRpcExchange, JsonRpcMessage, MessageDirection,
    MessageV,
};
use crate::text::eq_str;

verus! {

broadcast use vstd::std_specs::vec::group_vec_axioms, vstd::seq::group_seq_axioms;

/// A character that sanitization keeps: ASCII, and not a control character
/// other than newline or tab.
pub open spec fn keep_char(c: char) -> bool {
    (c as u32) < 128 && (!((c as u32) < 32 || (c as u32) == 127) || c == '\n' || c == '\t')
}

/// One pass over `s` from position `i`, keeping the characters that
/// [`keep_char`] admits until 500 have been kept.
pub open spec fn san_step(acc: Seq<char>, s: Seq<char>, i: int) -> Seq<char>
    decreases s.len() - i,
{
    if i < 0 || i >= s.len() {
        acc
    } else {
        san_step(
            if keep_char(s[i]) && acc.len() < 500 {
                acc.push(s[i])
            } else {
                acc
            },
            s,
            i + 1,
        )
    }
}

/// The sanitized form of a diagnostic string: non-ASCII and control
/// characters (except newline and tab) removed, truncated to 500 kept
/// characters.
pub open spec fn sanitize_spec(s: Seq<char>) -> Seq<char> {
    san_step(Seq::empty(), s, 0)
}

proof fn lemma_san_step_wf(acc: Seq<char>, s: Seq<char>, i: int)
    requires
        acc.len() <= 500,
        forall|k: int| 0 <= k < acc.len() ==> keep_char(#[trigger] acc[k]),
    ensures
        san_step(acc, s, i).len() <= 500,
        forall|k: int|
            0 <= k < san_step(acc, s, i).len() ==> keep_char(#[trigger] san_step(acc, s, i)[k]),
    decreases s.len() - i,
{
    if !(i < 0 || i >= s.len()) {
        if keep_char(s[i]) && acc.len() < 500 {
            lemma_san_step_wf(acc.push(s[i]), s, i + 1);
        } else {
            lemma_san_step_wf(acc, s, i + 1);
        }
    }
}

/// Every sanitized string holds at most 500 characters, all ASCII, with no
/// control characters other than newline and tab.
pub proof fn lemma_sanitize_wf(s: Seq<char>)
    ensures
        sanitize_spec(s).len() <= 500,
        forall|k: int|
            0 <= k < sanitize_spec(s).len() ==> keep_char(#[trigger] sanitize_spec(s)[k]),
{
    lemma_san_step_wf(Seq::empty(), s, 0);
}

/// Runtime test for [`keep_char`].
pub fn keep_char_exec(c: char) -> (r: bool)
    ensures
        r == keep_char(c),
{
    let u = c as u32;
    u < 128 && (!(u < 32 || u == 127) || c == '\n' || c == '\t')
}

/// Sanitizes a diagnostic string.
#[verifier::loop_isolation(false)]
pub fn sanitize_text(s: &str) -> (r: String)
    ensures
        r@ == sanitize_spec(s@),
{
    let len = s.unicode_len();
    let mut out = String::new();
    let mut kept: usize = 0;
    let mut i: usize = 0;
    while i < len
        invariant
            0 <= i <= len,
            kept == out@.len(),
            kept <= 500,
            san_step(out@, s@, i as int) == sanitize_spec(s@),
        decreases len - i,
    {
        let c = s.get_char(i);
        if keep_char_exec(c) && kept < 500 {
            out.push(c);
            kept += 1;
        }
        i += 1;
    }
    out
}

/// A sanitized object field: a textual `data` field is sanitized, all other
/// fields pass through.
pub open spec fn sanitize_field(f: (Seq<char>, Jv)) -> (Seq<char>, Jv) {
    match f.1 {
        Jv::Text(t) => if f.0 == "data"@ {
            (f.0, Jv::Text(sanitize_spec(t)))
        } else {
            f
        },
        _ => f,
    }
}

/// The fields of an error object after sanitization.
pub open spec fn sanitize_fields(fs: Seq<(Seq<char>, Jv)>) -> Seq<(Seq<char>, Jv)> {
    Seq::new(fs.len(), |i: int| sanitize_field(fs[i]))
}

/// An error value after sanitization: only a textual `data` field of an
/// object is rewritten.
pub open spec fn sanitize_error_jv(e: Jv) -> Jv {
    match e {
        Jv::Object(fs) => Jv::Object(sanitize_fields(fs)),
        _ => e,
    }
}

/// An optional error value after sanitization.
pub open spec fn sanitize_opt_error(e: Option<Jv>) -> Option<Jv> {
    match e {
        Option::Some(v) => Option::Some(sanitize_error_jv(v)),
        Option::None => Option::None,
    }
}

/// A record as the store keeps it: the error's `data` string sanitized,
/// everything else untouched.
pub open spec fn msg_sanitized(m: MessageV) -> MessageV {
    MessageV { error: sanitize_opt_error(m.error), ..m }
}

/// Sanitizes the error field of a record before it enters the store.
#[verifier::loop_isolation(false)]
pub fn sanitize_message(m: JsonRpcMessage) -> (r: JsonRpcMessage)
    ensures
        r@ == msg_sanitized(m@),
{
    let error = match m.error {
        Option::None => Option::None,
        Option::Some(e) => Option::Some(
            match e {
                JsonValue::Object(fields) => {
                    proof {
                        lemma_jv_field_views(fields@);
                    }
                    let mut out: Vec<(String, JsonValue)> = Vec::new();
                    let mut i: usize = 0;
                    while i < fields.len()
                        invariant
                            0 <= i <= fields.len(),
                            out.len() == i,
                            forall|j: int|
                                0 <= j < i ==> (#[trigger] out@[j].0@, out@[j].1@)
                                    == sanitize_field(jv_field_views(fields@)[j]),
                        decreases fields.len() - i,
                    {
                        let key = fields[i].0.clone();
                        let is_data = eq_str(key.as_str(), "data");
                        let value = match &fields[i].1 {
                            JsonValue::Text(t) => {
                                if is_data {
                                    JsonValue::Text(sanitize_text(t.as_str()))
                                } else {
                                    JsonValue::Text(t.clone())
                                }
                            },
                            other => other.deep_copy(),
                        };
                        out.push((key, value));
                        i += 1;
                    }
                    proof {
                        lemma_jv_field_views(out@);
                        assert(jv_field_views(out@) =~= sanitize_fields(jv_field_views(fields@)));
                    }
                    JsonValue::Object(out)
                },
                other => other,
            },
        ),
    };
    let r = JsonRpcMessage { error, ..m };
    proof {
        assert(r@ =~= msg_sanitized(m@));
    }
    r
}

/// The text a textual value carries.
pub open spec fn text_of(j: Jv) -> Seq<char> {
    match j {
        Jv::Text(t) => t,
        _ => Seq::empty(),
    }
}

/// Every textual `data` field of an ingested record's error enters the
/// store sanitized: only ASCII without control characters other than
/// newline and tab, at most 500 characters.
pub proof fn lemma_error_data_sanitized(fs: Seq<(Seq<char>, Jv)>, i: int)
    requires
        0 <= i < fs.len(),
        fs[i].0 == "data"@,
        fs[i].1 is Text,
    ensures
        sanitize_fields(fs).len() == fs.len(),
        sanitize_fields(fs)[i].1 == Jv::Text(sanitize_spec(text_of(fs[i].1))),
        sanitize_spec(text_of(fs[i].1)).len() <= 500,
        forall|k: int|
            0 <= k < sanitize_spec(text_of(fs[i].1)).len() ==> keep_char(
                #[trigger] sanitize_spec(text_of(fs[i].1))[k],
            ),
{
    lemma_sanitize_wf(text_of(fs[i].1));
}

/// The exchange a request record opens.
pub open spec fn new_request_exchange(m: MessageV) -> ExchangeV {
    ExchangeV {
        id: m.id,
        method: m.method,
        request: Option::Some(m),
        response: Option::None,
        timestamp: m.timestamp,
        transport: m.transport,
    }
}

/// The exchange appended for a response that pairs with nothing.
pub open spec fn new_response_exchange(m: MessageV) -> ExchangeV {
    ExchangeV {
        id: m.id,
        method: Option::None,
        request: Option::None,
        response: Option::Some(m),
        timestamp: m.timestamp,
        transport: m.transport,
    }
}

/// An exchange that can still absorb a response with the given id:
/// structurally equal id and no response yet.
pub open spec fn is_open_match(e: ExchangeV, id: Option<Jv>) -> bool {
    e.id == id && e.response is None
}

/// The index of the most recent exchange that can absorb a response with
/// the given id.
pub open spec fn last_open_match(exs: Seq<ExchangeV>, id: Option<Jv>) -> Option<int>
    decreases exs.len(),
{
    if exs.len() == 0 {
        Option::None
    } else if is_open_match(exs.last(), id) {
        Option::Some(exs.len() - 1)
    } else {
        last_open_match(exs.drop_last(), id)
    }
}

/// What `last_open_match` returns: the unique open match that no later open
/// match follows, or nothing when no open match exists.
pub proof fn lemma_last_open_match_props(exs: Seq<ExchangeV>, id: Option<Jv>)
    ensures
        match last_open_match(exs, id) {
            Option::Some(k) => 0 <= k < exs.len() && is_open_match(exs[k], id) && forall|j: int|
                k < j < exs.len() ==> !is_open_match(#[trigger] exs[j], id),
            Option::None => forall|j: int|
                0 <= j < exs.len() ==> !is_open_match(#[trigger] exs[j], id),
        },
    decreases exs.len(),
{
    if exs.len() > 0 && !is_open_match(exs.last(), id) {
        lemma_last_open_match_props(exs.drop_last(), id);
        assert(forall|j: int| 0 <= j < exs.len() - 1 ==> exs.drop_last()[j] == exs[j]);
    }
}

/// `last_open_match` picks exactly the index whose later positions hold no
/// open match.
pub proof fn lemma_last_open_match_at(exs: Seq<ExchangeV>, id: Option<Jv>, i: int)
    requires
        0 <= i < exs.len(),
        is_open_match(exs[i], id),
        forall|j: int| i < j < exs.len() ==> !is_open_match(#[trigger] exs[j], id),
    ensures
        last_open_match(exs, id) == Option::Some(i),
    decreases exs.len(),
{
    if i == exs.len() - 1 {
    } else {
        assert(!is_open_match(exs.last(), id));
        assert(forall|j: int| 0 <= j < exs.len() - 1 ==> exs.drop_last()[j] == exs[j]);
        lemma_last_open_match_at(exs.drop_last(), id, i);
    }
}

/// The store after one record is applied: the record is sanitized; a
/// request opens a new exchange; a response joins the most recent open
/// exchange with a structurally equal id, or opens a response-only exchange
/// when none exists.
pub open spec fn store_add(exs: Seq<ExchangeV>, m: MessageV) -> Seq<ExchangeV> {
    let m2 = msg_sanitized(m);
    if m2.direction == MessageDirection::Request {
        exs.push(new_request_exchange(m2))
    } else {
        match last_open_match(exs, m2.id) {
            Option::Some(i) => exs.update(
                i,
                ExchangeV { response: Option::Some(m2), ..exs[i] },
            ),
            Option::None => exs.push(new_response_exchange(m2)),
        }
    }
}

/// The store after a sequence of records is applied in order.
pub open spec fn store_add_all(exs: Seq<ExchangeV>, msgs: Seq<MessageV>) -> Seq<ExchangeV>
    decreases msgs.len(),
{
    if msgs.len() == 0 {
        exs
    } else {
        store_add_all(store_add(exs, msgs.first()), msgs.drop_first())
    }
}

/// Whether applying `m` after the exchanges `exs` opens a new exchange:
/// every request does, and so does every response that pairs with nothing.
pub open spec fn counts_as_new(exs: Seq<ExchangeV>, m: MessageV) -> bool {
    msg_sanitized(m).direction == MessageDirection::Request || last_open_match(
        exs,
        msg_sanitized(m).id,
    ) is None
}

/// How many of the records in `msgs`, applied in order after `exs`, open a
/// new exchange.
pub open spec fn new_count(exs: Seq<ExchangeV>, msgs: Seq<MessageV>) -> int
    decreases msgs.len(),
{
    if msgs.len() == 0 {
        0
    } else {
        (if counts_as_new(exs, msgs.first()) {
            1int
        } else {
            0int
        }) + new_count(store_add(exs, msgs.first()), msgs.drop_first())
    }
}

/// Applying one record grows the store by one exactly when the record is a
/// request or a response that pairs with nothing; pairing leaves the length
/// unchanged.
pub proof fn lemma_store_add_len(exs: Seq<ExchangeV>, m: MessageV)
    ensures
        store_add(exs, m).len() == exs.len() + (if counts_as_new(exs, m) {
            1int
        } else {
            0int
        }),
{
    lemma_last_open_match_props(exs, msg_sanitized(m).id);
}

/// After any sequence of records, the store holds one exchange for each
/// request plus one for each response whose id paired with no open
/// exchange at the time it arrived.
pub proof fn lemma_store_len(exs: Seq<ExchangeV>, msgs: Seq<MessageV>)
    ensures
        store_add_all(exs, msgs).len() == exs.len() + new_count(exs, msgs),
    decreases msgs.len(),
{
    if msgs.len() > 0 {
        lemma_store_add_len(exs, msgs.first());
        lemma_store_len(store_add(exs, msgs.first()), msgs.drop_first());
    }
}

/// An exchange whose halves carry the exchange's own id.
pub open spec fn exchange_wf(e: ExchangeV) -> bool {
    &&& (e.request matches Option::Some(r) ==> r.id == e.id)
    &&& (e.response matches Option::Some(p) ==> p.id == e.id)
}

/// Every exchange in the store carries its halves' id.
pub open spec fn store_wf(exs: Seq<ExchangeV>) -> bool {
    forall|i: int| 0 <= i < exs.len() ==> exchange_wf(#[trigger] exs[i])
}

/// Applying a record preserves the id discipline: in particular, in every
/// exchange holding both a request and a response, the two ids are
/// structurally equal.
pub proof fn lemma_store_add_wf(exs: Seq<ExchangeV>, m: MessageV)
    requires
        store_wf(exs),
    ensures
        store_wf(store_add(exs, m)),
{
    lemma_last_open_match_props(exs, msg_sanitized(m).id);
}

/// A full store built from any record sequence keeps the id discipline.
pub proof fn lemma_store_all_wf(exs: Seq<ExchangeV>, msgs: Seq<MessageV>)
    requires
        store_wf(exs),
    ensures
        store_wf(store_add_all(exs, msgs)),
    decreases msgs.len(),
{
    if msgs.len() > 0 {
        lemma_store_add_wf(exs, msgs.first());
        lemma_store_all_wf(store_add(exs, msgs.first()), msgs.drop_first());
    }
}

/// In a well-formed store, an exchange with both halves present pairs two
/// records whose ids are structurally equal.
pub proof fn lemma_paired_ids_equal(exs: Seq<ExchangeV>, i: int)
    requires
        store_wf(exs),
        0 <= i < exs.len(),
    ensures
        exs[i].request matches Option::Some(r) ==> (exs[i].response matches Option::Some(p)
            ==> r.id == p.id),
{
    assert(exchange_wf(exs[i]));
}

/// Pairing is last-in-first-out by id: when two open exchanges share the
/// response's id, the response joins the more recent one and the earlier
/// exchange is untouched.
pub proof fn lemma_pairing_lifo(exs: Seq<ExchangeV>, m: MessageV, i: int, j: int)
    requires
        msg_sanitized(m).direction == MessageDirection::Response,
        0 <= i < j < exs.len(),
        is_open_match(exs[i], msg_sanitized(m).id),
        is_open_match(exs[j], msg_sanitized(m).id),
    ensures
        last_open_match(exs, msg_sanitized(m).id) matches Option::Some(k) ==> j <= k && store_add(
            exs,
            m,
        ) == exs.update(
            k,
            (ExchangeV { response: Option::Some(msg_sanitized(m)), ..exs[k] }),
        ) && store_add(exs, m)[i] == exs[i],
        last_open_match(exs, msg_sanitized(m).id) is Some,
{
    lemma_last_open_match_props(exs, msg_sanitized(m).id);
}

/// For every sequence of captured records, a store built from nothing holds
/// exactly one exchange per request plus one per response that paired with
/// no open exchange when it arrived.
pub proof fn lemma_fresh_store_len(msgs: Seq<MessageV>)
    ensures
        store_add_all(Seq::empty(), msgs).len() == new_count(Seq::empty(), msgs),
{
    lemma_store_len(Seq::empty(), msgs);
}

/// A store built from nothing keeps the id discipline: every exchange
/// holding both halves pairs two records with structurally equal ids.
pub proof fn lemma_fresh_store_wf(msgs: Seq<MessageV>)
    ensures
        store_wf(store_add_all(Seq::empty(), msgs)),
{
    lemma_store_all_wf(Seq::empty(), msgs);
}

/// Structural equality of optional JSON values.
pub fn opt_json_eq(a: &Option<JsonValue>, b: &Option<JsonValue>) -> (r: bool)
    ensures
        r == (a.deep_view() == b.deep_view()),
{
    match (a, b) {
        (Option::None, Option::None) => true,
        (Option::Some(x), Option::Some(y)) => x.structural_eq(y),
        _ => false,
    }
}

impl App {
    /// Applies one captured record to the store, per [`store_add`]: the
    /// record is sanitized, a request always opens a new exchange, and a
    /// response pairs with the most recent open exchange whose id is
    /// structurally equal, falling back to a response-only exchange.
    #[verifier::loop_isolation(false)]
    pub fn add_message(&mut self, message: JsonRpcMessage)
        ensures
            final(self).exchanges.deep_view() == store_add(
                old(self).exchanges.deep_view(),
                message@,
            ),
            *final(self) == (App { exchanges: final(self).exchanges, ..*old(self) }),
    {
        let m2 = sanitize_message(message);
        let ghost old_dv = self.exchanges.deep_view();
        match m2.direction {
            MessageDirection::Request => {
                let exchange = JsonRpcExchange {
                    id: copy_opt_json(&m2.id),
                    method: copy_opt_string(&m2.method),
                    timestamp: m2.timestamp,
                    transport: m2.transport,
                    request: Option::Some(m2),
                    response: Option::None,
                };
                proof {
                    assert(exchange@ =~= new_request_exchange(msg_sanitized(message@)));
                }
                self.exchanges.push(exchange);
                proof {
                    assert(self.exchanges.deep_view() =~= old_dv.push(
                        new_request_exchange(msg_sanitized(message@)),
                    ));
                }
            },
            MessageDirection::Response => {
                let ghost id = msg_sanitized(message@).id;
                let mut i: usize = self.exchanges.len();
                while i > 0
                    invariant
                        0 <= i <= self.exchanges@.len(),
                        forall|j: int|
                            i <= j < old_dv.len() ==> !is_open_match(#[trigger] old_dv[j], id),
                        *self == *old(self),
                        m2@ == msg_sanitized(message@),
                    decreases i,
                {
                    let idx = i - 1;
                    let id_matches = opt_json_eq(&self.exchanges[idx].id, &m2.id);
                    let open = self.exchanges[idx].response.is_none();
                    if id_matches && open {
                        proof {
                            lemma_last_open_match_at(old_dv, id, idx as int);
                        }
                        let updated = JsonRpcExchange {
                            id: copy_opt_json(&self.exchanges[idx].id),
                            method: copy_opt_string(&self.exchanges[idx].method),
                            request: match &self.exchanges[idx].request {
                                Option::Some(req) => Option::Some(req.deep_copy()),
                                Option::None => Option::None,
                            },
                            response: Option::Some(m2),
                            timestamp: self.exchanges[idx].timestamp,
                            transport: self.exchanges[idx].transport,
                        };
                        proof {
                            assert(updated@ =~= (ExchangeV {
                                response: Option::Some(msg_sanitized(message@)),
                                ..old_dv[idx as int]
                            }));
                        }
                        self.exchanges[idx] = updated;
                        proof {
                            assert(self.exchanges.deep_view() =~= old_dv.update(
                                idx as int,
                                (ExchangeV {
                                    response: Option::Some(msg_sanitized(message@)),
                                    ..old_dv[idx as int]
                                }),
                            ));
                        }
                        return ;
                    }
                    i = idx;
                }
                proof {
                    lemma_last_open_match_props(old_dv, id);
                    assert(last_open_match(old_dv, id) is None);
                }
                let exchange = JsonRpcExchange {
                    id: copy_opt_json(&m2.id),
                    method: Option::None,
                    request: Option::None,
                    timestamp: m2.timestamp,
                    transport: m2.transport,
                    response: Option::Some(m2),
                };
                proof {
                    assert(exchange@ =~= new_response_exchange(msg_sanitized(message@)));
                }
                self.exchanges.push(exchange);
                proof {
                    assert(self.exchanges.deep_view() =~= old_dv.push(
                        new_response_exchange(msg_sanitized(message@)),
                    ));
                }
            },
        }
    }

    /// Applies a batch of records drained from the capture channel, in
    /// arrival order.
    #[verifier::loop_isolation(false)]
    pub fn check_for_new_messages(&mut self, new_messages: Vec<JsonRpcMessage>)
        ensures
            final(self).exchanges.deep_view() == store_add_all(
                old(self).exchanges.deep_view(),
                new_messages.deep_view(),
            ),
            *final(self) == (App { exchanges: final(self).exchanges, ..*old(self) }),
    {
        let ghost all = new_messages.deep_view();
        let ghost old_dv = self.exchanges.deep_view();
        let mut msgs = new_messages;
        while msgs.len() > 0
            invariant
                store_add_all(self.exchanges.deep_view(), msgs.deep_view()) == store_add_all(
                    old_dv,
                    all,
                ),
                *self == (App { exchanges: self.exchanges, ..*old(self) }),
            decreases msgs.len(),
        {
            let ghost before = msgs.deep_view();
            let m = msgs.remove(0);
            proof {
                assert(msgs.deep_view() =~= before.drop_first());
                assert(m@ == before.first());
            }
            self.add_message(m);
        }
        proof {
            assert(msgs.deep_view() =~= Seq::<MessageV>::empty());
        }
    }
}

} // verus!
