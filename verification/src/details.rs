//! The detail pane's line estimate for the selected exchange: the front end
//! sizes its scroll range by this count.

use vstd::prelude::*;

use crate::app::App;
use crate::json::{jv_field_views, Jv, JsonValue};
use crate::jsontext::{json_pretty, to_pretty};
use crate::model::{ExchangeV, MessageV};
use crate::rpc::push_field;
use vstd::string::StrSliceExecFns;

verus! {

broadcast use vstd::std_specs::vec::group_vec_axioms, vstd::seq::group_seq_axioms;

/// Number of newline characters in a text.
pub open spec fn newline_count(s: Seq<char>) -> int
    decreases s.len(),
{
    if s.len() == 0 {
        0
    } else {
        newline_count(s.drop_last()) + if s.last() == '\n' {
            1int
        } else {
            0int
        }
    }
}

/// Number of lines a rendered text occupies: its newlines plus one.
pub open spec fn line_count_of(s: Seq<char>) -> int {
    newline_count(s) + 1
}

/// Addition that stops at the top of `usize`.
pub fn sat_add(a: usize, b: usize) -> (r: usize)
    ensures
        r as int == if a + b <= usize::MAX {
            a + b
        } else {
            usize::MAX as int
        },
{
    if a <= usize::MAX - b {
        a + b
    } else {
        usize::MAX
    }
}

/// Counts the lines of a rendered text, per [`line_count_of`].
#[verifier::loop_isolation(false)]
pub fn count_lines(s: &str) -> (r: usize)
    ensures
        r as int <= line_count_of(s@),
        line_count_of(s@) <= usize::MAX ==> r as int == line_count_of(s@),
{
    let len = s.unicode_len();
    let mut cnt: usize = 0;
    let mut i: usize = 0;
    proof {
        assert(s@.take(0) =~= Seq::<char>::empty());
    }
    while i < len
        invariant
            0 <= i <= len,
            cnt <= i,
            cnt as int == newline_count(s@.take(i as int)),
        decreases len - i,
    {
        proof {
            assert(s@.take(i as int + 1).drop_last() =~= s@.take(i as int));
            assert(s@.take(i as int + 1).last() == s@[i as int]);
        }
        if s.get_char(i) == '\n' {
            cnt += 1;
        }
        i += 1;
    }
    proof {
        assert(s@.take(len as int) =~= s@);
    }
    sat_add(cnt, 1)
}

/// The JSON shown in the request pane: the captured request's JSON-RPC
/// members, present only when the record carries them.
pub open spec fn details_request_jv(m: MessageV) -> Jv {
    Jv::Object(
        seq![("jsonrpc"@, Jv::Text("2.0"@))] + (match m.id {
            Option::Some(v) => seq![("id"@, v)],
            Option::None => Seq::empty(),
        }) + (match m.method {
            Option::Some(t) => seq![("method"@, Jv::Text(t))],
            Option::None => Seq::empty(),
        }) + (match m.params {
            Option::Some(v) => seq![("params"@, v)],
            Option::None => Seq::empty(),
        }),
    )
}

/// The JSON shown in the response pane.
pub open spec fn details_response_jv(m: MessageV) -> Jv {
    Jv::Object(
        seq![("jsonrpc"@, Jv::Text("2.0"@))] + (match m.id {
            Option::Some(v) => seq![("id"@, v)],
            Option::None => Seq::empty(),
        }) + (match m.result {
            Option::Some(v) => seq![("result"@, v)],
            Option::None => Seq::empty(),
        }) + (match m.error {
            Option::Some(v) => seq![("error"@, v)],
            Option::None => Seq::empty(),
        }),
    )
}

/// Lines one half of the pane takes: its banner, the header listing when
/// headers were captured, and the pretty-printed JSON.
pub open spec fn section_lines(m: MessageV, body: Jv) -> int {
    2 + (match m.headers {
        Option::Some(h) => 2 + h.len() as int,
        Option::None => 0int,
    }) + 2 + line_count_of(json_pretty(body))
}

/// The full line estimate: one line with nothing selected; otherwise three
/// summary lines, the request section when present, and the response
/// section (or its two-line placeholder).
pub open spec fn details_lines_spec(e: Option<ExchangeV>) -> int {
    match e {
        Option::None => 1,
        Option::Some(ex) => 3 + (match ex.request {
            Option::Some(m) => section_lines(m, details_request_jv(m)),
            Option::None => 0int,
        }) + (match ex.response {
            Option::Some(m) => section_lines(m, details_response_jv(m)),
            Option::None => 2int,
        }),
    }
}

impl App {
    /// The detail pane's line count for the selected exchange, per
    /// [`details_lines_spec`] (saturating at the top of `usize`).
    pub fn get_details_content_lines(&self) -> (r: usize)
        ensures
            ({
                let e = if self.selected_exchange < self.exchanges@.len() {
                    Option::Some(self.exchanges.deep_view()[self.selected_exchange as int])
                } else {
                    Option::<ExchangeV>::None
                };
                details_lines_spec(e) <= usize::MAX ==> r as int == details_lines_spec(e)
            }),
    {
        if self.selected_exchange >= self.exchanges.len() {
            return 1;
        }
        let ex = &self.exchanges[self.selected_exchange];
        let mut count: usize = 3;
        match &ex.request {
            Option::Some(req) => {
                count = sat_add(count, 2);
                match &req.headers {
                    Option::Some(h) => {
                        count = sat_add(count, sat_add(2, h.len()));
                    },
                    Option::None => {},
                }
                count = sat_add(count, 2);
                let mut fields: Vec<(String, JsonValue)> = Vec::new();
                proof {
                    crate::json::lemma_jv_field_views(fields@);
                    assert(jv_field_views(fields@) =~= Seq::<(Seq<char>, Jv)>::empty());
                }
                push_field(&mut fields, "jsonrpc", crate::rpc::text_value("2.0"));
                match &req.id {
                    Option::Some(v) => {
                        push_field(&mut fields, "id", v.deep_copy());
                    },
                    Option::None => {},
                }
                match &req.method {
                    Option::Some(t) => {
                        push_field(&mut fields, "method", JsonValue::Text(t.clone()));
                    },
                    Option::None => {},
                }
                match &req.params {
                    Option::Some(v) => {
                        push_field(&mut fields, "params", v.deep_copy());
                    },
                    Option::None => {},
                }
                proof {
                    assert(jv_field_views(fields@) =~= (seq![("jsonrpc"@, Jv::Text("2.0"@))]
                        + (match req@.id {
                        Option::Some(v) => seq![("id"@, v)],
                        Option::None => Seq::empty(),
                    }) + (match req@.method {
                        Option::Some(t) => seq![("method"@, Jv::Text(t))],
                        Option::None => Seq::empty(),
                    }) + (match req@.params {
                        Option::Some(v) => seq![("params"@, v)],
                        Option::None => Seq::empty(),
                    })));
                }
                let body = JsonValue::Object(fields);
                proof {
                    assert(body@ == details_request_jv(req@));
                }
                let pretty = to_pretty(&body);
                count = sat_add(count, count_lines(pretty.as_str()));
            },
            Option::None => {},
        }
        match &ex.response {
            Option::Some(resp) => {
                count = sat_add(count, 2);
                match &resp.headers {
                    Option::Some(h) => {
                        count = sat_add(count, sat_add(2, h.len()));
                    },
                    Option::None => {},
                }
                count = sat_add(count, 2);
                let mut fields: Vec<(String, JsonValue)> = Vec::new();
                proof {
                    crate::json::lemma_jv_field_views(fields@);
                    assert(jv_field_views(fields@) =~= Seq::<(Seq<char>, Jv)>::empty());
                }
                push_field(&mut fields, "jsonrpc", crate::rpc::text_value("2.0"));
                match &resp.id {
                    Option::Some(v) => {
                        push_field(&mut fields, "id", v.deep_copy());
                    },
                    Option::None => {},
                }
                match &resp.result {
                    Option::Some(v) => {
                        push_field(&mut fields, "result", v.deep_copy());
                    },
                    Option::None => {},
                }
                match &resp.error {
                    Option::Some(v) => {
                        push_field(&mut fields, "error", v.deep_copy());
                    },
                    Option::None => {},
                }
                proof {
                    assert(jv_field_views(fields@) =~= (seq![("jsonrpc"@, Jv::Text("2.0"@))]
                        + (match resp@.id {
                        Option::Some(v) => seq![("id"@, v)],
                        Option::None => Seq::empty(),
                    }) + (match resp@.result {
                        Option::Some(v) => seq![("result"@, v)],
                        Option::None => Seq::empty(),
                    }) + (match resp@.error {
                        Option::Some(v) => seq![("error"@, v)],
                        Option::None => Seq::empty(),
                    })));
                }
                let body = JsonValue::Object(fields);
                proof {
                    assert(body@ == details_response_jv(resp@));
                }
                let pretty = to_pretty(&body);
                count = sat_add(count, count_lines(pretty.as_str()));
            },
            Option::None => {
                count = sat_add(count, 2);
            },
        }
        count
    }
}

} // verus!
