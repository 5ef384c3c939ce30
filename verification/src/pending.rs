//! The pending-request queue: selection, operator decisions, and validated
//! edits of an intercepted request's body and headers.

use vstd::prelude::*;

use vstd::string::StrSliceExecFns;
use vstd::string::StringExecFns;

use crate::app::App;
use crate::json::{Jv, JsonValue};
use crate::jsontext::{json_parse, json_pretty, parse_json, to_pretty};
use crate::model::{
    copy_opt_headers, copy_opt_string, AppMode, Headers, HeadersV, MessageV, PendingRequest,
    PendingV, ProxyDecision, ProxyDecisionV,
};
use crate::rpc::{
    has_field, id_or_null, id_or_null_value, is_v2, jv_is_v2, push_field, text_value,
};
use crate::text::{
    char_index, eq_str, find_char_from, lemma_char_index_at, lines_spec, split_lines, trim_spec,
    trim_str,
};

verus! {

broadcast use vstd::std_specs::vec::group_vec_axioms, vstd::seq::group_seq_axioms;

/// The cursor after the entry at `sel` was removed from a queue that now
/// holds `new_len` entries: pulled back one step when it fell off the end,
/// otherwise unchanged.
pub open spec fn adjusted_selection(sel: int, new_len: int) -> int {
    if sel > 0 && sel >= new_len {
        sel - 1
    } else {
        sel
    }
}

/// The decision an `allow` dispatch carries: the edited body when it still
/// parses, no body otherwise — a bad edit can never wedge a request — and
/// the edited headers as they stand.
pub open spec fn allow_decision_of(p: PendingV) -> ProxyDecisionV {
    ProxyDecisionV::Allow(
        match p.modified_request {
            Option::Some(t) => match json_parse(t) {
                Result::Ok(j) => Option::Some(j),
                Result::Err(_) => Option::None,
            },
            Option::None => Option::None,
        },
        p.modified_headers,
    )
}

/// A valid JSON-RPC 2.0 response document: declares the version, carries an
/// id, and holds exactly one of `result` and `error`.
pub open spec fn valid_response_jv(v: Jv) -> bool {
    &&& jv_is_v2(v)
    &&& crate::json::jv_get(v, "id"@) is Some
    &&& (crate::json::jv_get(v, "result"@) is Some != crate::json::jv_get(v, "error"@) is Some)
}

/// A valid JSON-RPC 2.0 request document: declares the version and names a
/// method.
pub open spec fn valid_request_jv(v: Jv) -> bool {
    &&& jv_is_v2(v)
    &&& crate::json::jv_get(v, "method"@) is Some
}

/// First index holding key `k`, or the length when the key is absent.
pub open spec fn key_index(hs: HeadersV, k: Seq<char>) -> int
    decreases hs.len(),
{
    if hs.len() == 0 {
        0
    } else if hs.first().0 == k {
        0
    } else {
        1 + key_index(hs.drop_first(), k)
    }
}

/// `key_index` lands on the first occurrence of the key, or on the length.
pub proof fn lemma_key_index_props(hs: HeadersV, k: Seq<char>)
    ensures
        0 <= key_index(hs, k) <= hs.len(),
        forall|j: int| 0 <= j < key_index(hs, k) ==> (#[trigger] hs[j]).0 != k,
        key_index(hs, k) < hs.len() ==> hs[key_index(hs, k)].0 == k,
    decreases hs.len(),
{
    if hs.len() > 0 && hs.first().0 != k {
        lemma_key_index_props(hs.drop_first(), k);
        assert forall|j: int| 0 <= j < key_index(hs, k) implies (#[trigger] hs[j]).0 != k by {
            if j >= 1 {
                assert(hs.drop_first()[j - 1] == hs[j]);
            }
        }
    }
}

/// Any index before which the key is absent, and at which it occurs (or
/// which is the length), is `key_index`.
pub proof fn lemma_key_index_at(hs: HeadersV, k: Seq<char>, i: int)
    requires
        0 <= i <= hs.len(),
        forall|j: int| 0 <= j < i ==> (#[trigger] hs[j]).0 != k,
        i < hs.len() ==> hs[i].0 == k,
    ensures
        key_index(hs, k) == i,
{
    lemma_key_index_props(hs, k);
    let ki = key_index(hs, k);
    if ki < i {
        assert(hs[ki].0 == k);
        assert(hs[ki].0 != k);
    }
    if ki > i {
        assert(hs[i].0 != k);
        assert(hs[i].0 == k);
    }
}

/// The mapping with `k` bound to `v`: the value is replaced in place when
/// the key is already present, and appended otherwise.
pub open spec fn upsert(hs: HeadersV, k: Seq<char>, v: Seq<char>) -> HeadersV {
    let i = key_index(hs, k);
    if i == hs.len() {
        hs.push((k, v))
    } else {
        hs.update(i, (k, v))
    }
}

/// Binds `k` to `v` in a header mapping, per [`upsert`].
#[verifier::loop_isolation(false)]
pub fn upsert_header(hs: &mut Headers, k: String, v: String)
    ensures
        final(hs).deep_view() == upsert(old(hs).deep_view(), k@, v@),
{
    let ghost dv = hs.deep_view();
    let mut i: usize = 0;
    while i < hs.len()
        invariant
            0 <= i <= hs@.len(),
            forall|j: int| 0 <= j < i ==> (#[trigger] dv[j]).0 != k@,
            *hs == *old(hs),
        decreases hs@.len() - i,
    {
        if eq_str(hs[i].0.as_str(), k.as_str()) {
            proof {
                lemma_key_index_at(dv, k@, i as int);
            }
            hs[i] = (k, v);
            proof {
                assert(hs.deep_view() =~= dv.update(i as int, (k@, v@)));
            }
            return ;
        }
        i += 1;
    }
    proof {
        lemma_key_index_at(dv, k@, dv.len() as int);
    }
    hs.push((k, v));
    proof {
        assert(hs.deep_view() =~= dv.push((k@, v@)));
    }
}

/// One pass of the header-edit parser over the remaining lines, starting
/// from the mapping gathered so far. Empty lines and lines starting with
/// `#` are skipped; a line without a colon is the parse error; otherwise
/// the trimmed key (when non-empty) is bound to the trimmed value.
pub open spec fn parse_header_lines(acc: HeadersV, lines: Seq<Seq<char>>) -> Result<
    HeadersV,
    Seq<char>,
>
    decreases lines.len(),
{
    if lines.len() == 0 {
        Result::Ok(acc)
    } else {
        let l = trim_spec(lines.first());
        if l.len() == 0 || l[0] == '#' {
            parse_header_lines(acc, lines.drop_first())
        } else {
            let ci = char_index(l, ':');
            if ci == l.len() {
                Result::Err("Invalid header format: '"@ + l + "'. Use 'key: value' format."@)
            } else {
                let k = trim_spec(l.take(ci));
                let v = trim_spec(l.skip(ci + 1));
                parse_header_lines(
                    if k.len() == 0 {
                        acc
                    } else {
                        upsert(acc, k, v)
                    },
                    lines.drop_first(),
                )
            }
        }
    }
}

/// What an operator-edited header text parses to.
pub open spec fn parse_headers_text(s: Seq<char>) -> Result<HeadersV, Seq<char>> {
    parse_header_lines(Seq::empty(), lines_spec(s))
}

/// Parses an operator-edited header text, per [`parse_headers_text`].
#[verifier::loop_isolation(false)]
pub fn parse_headers(text: &str) -> (r: Result<Headers, String>)
    ensures
        r matches Result::Ok(h) ==> (parse_headers_text(text@) matches Result::Ok(hv)
            && h.deep_view() == hv),
        r matches Result::Err(e) ==> (parse_headers_text(text@) matches Result::Err(s) && e@
            == s),
{
    let lines = split_lines(text);
    let ghost all = lines.deep_view();
    let mut headers: Headers = Vec::new();
    let mut i: usize = 0;
    proof {
        assert(all.skip(0) =~= all);
        assert(headers.deep_view() =~= Seq::<(Seq<char>, Seq<char>)>::empty());
    }
    while i < lines.len()
        invariant
            0 <= i <= lines@.len(),
            parse_header_lines(headers.deep_view(), all.skip(i as int)) == parse_headers_text(
                text@,
            ),
        decreases lines@.len() - i,
    {
        let ghost rest = all.skip(i as int);
        proof {
            assert(rest.first() == all[i as int]);
            assert(rest.drop_first() =~= all.skip(i as int + 1));
        }
        let trimmed = trim_str(lines[i].as_str());
        let tlen = trimmed.unicode_len();
        let skip_line = tlen == 0 || trimmed.get_char(0) == '#';
        if !skip_line {
            let colon = find_char_from(trimmed, 0, ':');
            proof {
                lemma_char_index_at(trimmed@, ':', colon as int);
            }
            if colon == tlen {
                let mut e = String::from_str("Invalid header format: '");
                e.append(trimmed);
                e.append("'. Use 'key: value' format.");
                return Result::Err(e);
            }
            let key = trim_str(trimmed.substring_char(0, colon));
            let value = trim_str(trimmed.substring_char(colon + 1, tlen));
            proof {
                assert(trimmed@.subrange(0, colon as int) =~= trimmed@.take(colon as int));
                assert(trimmed@.subrange(colon as int + 1, tlen as int) =~= trimmed@.skip(
                    colon as int + 1,
                ));
            }
            if key.unicode_len() > 0 {
                upsert_header(&mut headers, String::from_str(key), String::from_str(value));
            }
        }
        i += 1;
    }
    proof {
        assert(all.skip(lines@.len() as int) =~= Seq::<Seq<char>>::empty());
    }
    Result::Ok(headers)
}

/// The editable body shown for an intercepted request: its JSON-RPC fields,
/// with null standing for an absent member.
pub open spec fn request_editor_jv(m: MessageV) -> Jv {
    Jv::Object(
        seq![
            ("jsonrpc"@, Jv::Text("2.0"@)),
            (
                "method"@,
                match m.method {
                    Option::Some(t) => Jv::Text(t),
                    Option::None => Jv::Null,
                },
            ),
            ("params"@, id_or_null(m.params)),
            ("id"@, id_or_null(m.id)),
        ],
    )
}

/// The template shown when completing a request: a response echoing the
/// request's id with a placeholder result.
pub open spec fn response_template_jv(m: MessageV) -> Jv {
    Jv::Object(
        seq![
            ("jsonrpc"@, Jv::Text("2.0"@)),
            ("id"@, id_or_null(m.id)),
            ("result"@, Jv::Text("custom response"@)),
        ],
    )
}

/// One `key: value` line of the header editor.
pub open spec fn header_line(h: (Seq<char>, Seq<char>)) -> Seq<char> {
    h.0 + ": "@ + h.1
}

/// The header editor's text: one line per mapping entry, joined by
/// newlines.
pub open spec fn header_lines_text(hs: HeadersV) -> Seq<char>
    decreases hs.len(),
{
    if hs.len() == 0 {
        Seq::empty()
    } else if hs.len() == 1 {
        header_line(hs[0])
    } else {
        header_lines_text(hs.drop_last()) + seq!['\n'] + header_line(hs.last())
    }
}

/// The headers a forwarded request would carry: the operator's replacement
/// mapping when one was saved, the captured mapping otherwise.
pub open spec fn effective_headers(p: PendingV) -> Option<HeadersV> {
    match p.modified_headers {
        Option::Some(h) => Option::Some(h),
        Option::None => p.original_request.headers,
    }
}

impl App {
    /// Moves the pending cursor forward, wrapping, and resets the intercept
    /// scroll; does nothing on an empty queue.
    pub fn select_next_pending(&mut self)
        requires
            old(self).selected_pending < usize::MAX,
        ensures
            old(self).pending_requests@.len() == 0 ==> *final(self) == *old(self),
            old(self).pending_requests@.len() > 0 ==> *final(self) == (App {
                selected_pending: ((old(self).selected_pending + 1) % (old(
                    self,
                ).pending_requests@.len() as int)) as usize,
                intercept_details_scroll: 0,
                ..*old(self)
            }),
    {
        if self.pending_requests.len() > 0 {
            self.selected_pending = (self.selected_pending + 1) % self.pending_requests.len();
            self.intercept_details_scroll = 0;
        }
    }

    /// Moves the pending cursor backward, wrapping, and resets the intercept
    /// scroll; does nothing on an empty queue.
    pub fn select_previous_pending(&mut self)
        ensures
            old(self).pending_requests@.len() == 0 ==> *final(self) == *old(self),
            old(self).pending_requests@.len() > 0 ==> *final(self) == (App {
                selected_pending: if old(self).selected_pending == 0 {
                    (old(self).pending_requests@.len() - 1) as usize
                } else {
                    (old(self).selected_pending - 1) as usize
                },
                intercept_details_scroll: 0,
                ..*old(self)
            }),
    {
        if self.pending_requests.len() > 0 {
            self.selected_pending = if self.selected_pending == 0 {
                self.pending_requests.len() - 1
            } else {
                self.selected_pending - 1
            };
            self.intercept_details_scroll = 0;
        }
    }

    /// The pending entry under the cursor, if the cursor is in range.
    pub fn get_selected_pending(&self) -> (r: Option<&PendingRequest>)
        ensures
            self.selected_pending < self.pending_requests@.len() ==> (r matches Option::Some(p)
                && *p == self.pending_requests@[self.selected_pending as int]),
            self.selected_pending >= self.pending_requests@.len() ==> r is None,
    {
        if self.selected_pending < self.pending_requests.len() {
            Option::Some(&self.pending_requests[self.selected_pending])
        } else {
            Option::None
        }
    }

    /// Releases the selected pending request: removes it from the queue,
    /// pulls the cursor back when it fell off the end, and returns the
    /// entry's local id with the decision of [`allow_decision_of`], for the
    /// embedding program to deliver on the entry's reply channel. Returns
    /// nothing (and changes nothing) when the cursor is out of range.
    pub fn allow_selected_request(&mut self) -> (r: Option<(String, ProxyDecision)>)
        ensures
            old(self).selected_pending >= old(self).pending_requests@.len() ==> (*final(self)
                == *old(self) && r is None),
            old(self).selected_pending < old(self).pending_requests@.len() ==> {
                &&& final(self).pending_requests.deep_view() == old(
                    self,
                ).pending_requests.deep_view().remove(old(self).selected_pending as int)
                &&& final(self).selected_pending as int == adjusted_selection(
                    old(self).selected_pending as int,
                    final(self).pending_requests@.len() as int,
                )
                &&& *final(self) == (App {
                    pending_requests: final(self).pending_requests,
                    selected_pending: final(self).selected_pending,
                    ..*old(self)
                })
                &&& (r matches Option::Some(pair) && pair.0@ == old(
                    self,
                ).pending_requests.deep_view()[old(self).selected_pending as int].id && pair.1@
                    == allow_decision_of(
                    old(self).pending_requests.deep_view()[old(self).selected_pending as int],
                ))
            },
    {
        if self.selected_pending >= self.pending_requests.len() {
            return Option::None;
        }
        let ghost old_dv = self.pending_requests.deep_view();
        let sel = self.selected_pending;
        let pending = self.pending_requests.remove(sel);
        proof {
            assert(self.pending_requests.deep_view() =~= old_dv.remove(sel as int));
        }
        if self.selected_pending > 0 && self.selected_pending >= self.pending_requests.len() {
            self.selected_pending = self.selected_pending - 1;
        }
        let body = match &pending.modified_request {
            Option::Some(text) => match parse_json(text.as_str()) {
                Result::Ok(v) => Option::Some(v),
                Result::Err(_) => Option::None,
            },
            Option::None => Option::None,
        };
        let decision = ProxyDecision::Allow(body, pending.modified_headers);
        Option::Some((pending.id, decision))
    }

    /// Blocks the selected pending request: removes it from the queue,
    /// adjusts the cursor, and returns the entry's local id with the
    /// `Block` decision. Returns nothing (and changes nothing) when the
    /// cursor is out of range.
    pub fn block_selected_request(&mut self) -> (r: Option<(String, ProxyDecision)>)
        ensures
            old(self).selected_pending >= old(self).pending_requests@.len() ==> (*final(self)
                == *old(self) && r is None),
            old(self).selected_pending < old(self).pending_requests@.len() ==> {
                &&& final(self).pending_requests.deep_view() == old(
                    self,
                ).pending_requests.deep_view().remove(old(self).selected_pending as int)
                &&& final(self).selected_pending as int == adjusted_selection(
                    old(self).selected_pending as int,
                    final(self).pending_requests@.len() as int,
                )
                &&& *final(self) == (App {
                    pending_requests: final(self).pending_requests,
                    selected_pending: final(self).selected_pending,
                    ..*old(self)
                })
                &&& (r matches Option::Some(pair) && pair.0@ == old(
                    self,
                ).pending_requests.deep_view()[old(self).selected_pending as int].id && pair.1@
                    == ProxyDecisionV::Block)
            },
    {
        if self.selected_pending >= self.pending_requests.len() {
            return Option::None;
        }
        let ghost old_dv = self.pending_requests.deep_view();
        let sel = self.selected_pending;
        let pending = self.pending_requests.remove(sel);
        proof {
            assert(self.pending_requests.deep_view() =~= old_dv.remove(sel as int));
        }
        if self.selected_pending > 0 && self.selected_pending >= self.pending_requests.len() {
            self.selected_pending = self.selected_pending - 1;
        }
        Option::Some((pending.id, ProxyDecision::Block))
    }

    /// Releases every pending request unchanged: empties the queue, resets
    /// the cursor, returns to `Normal` mode, and hands back one
    /// `Allow(None, None)` decision per entry, in queue order.
    #[verifier::loop_isolation(false)]
    pub fn resume_all_requests(&mut self) -> (r: Vec<(String, ProxyDecision)>)
        ensures
            final(self).pending_requests@.len() == 0,
            final(self).selected_pending == 0,
            final(self).app_mode == AppMode::Normal,
            *final(self) == (App {
                pending_requests: final(self).pending_requests,
                selected_pending: 0,
                app_mode: AppMode::Normal,
                ..*old(self)
            }),
            r@.len() == old(self).pending_requests@.len(),
            forall|i: int| #![trigger r@[i]] 0 <= i < r@.len() ==> r@[i].0@ == old(
                self,
            ).pending_requests.deep_view()[i].id && r@[i].1@ == ProxyDecisionV::Allow(
                Option::None,
                Option::None,
            ),
    {
        let ghost old_dv = self.pending_requests.deep_view();
        let mut out: Vec<(String, ProxyDecision)> = Vec::new();
        while self.pending_requests.len() > 0
            invariant
                out@.len() + self.pending_requests@.len() == old_dv.len(),
                self.pending_requests.deep_view() =~= old_dv.skip(out@.len() as int),
                forall|i: int| 0 <= i < out@.len() ==> #[trigger] out@[i].0@ == old_dv[i].id
                    && out@[i].1@ == ProxyDecisionV::Allow(Option::None, Option::None),
                *self == (App {
                    pending_requests: self.pending_requests,
                    ..*old(self)
                }),
            decreases self.pending_requests@.len(),
        {
            let ghost before = self.pending_requests.deep_view();
            let p = self.pending_requests.remove(0);
            proof {
                assert(self.pending_requests.deep_view() =~= before.drop_first());
                assert(before.drop_first() =~= old_dv.skip(out@.len() as int + 1));
                assert(p@ == before.first());
                assert(before.first() == old_dv[out@.len() as int]);
            }
            out.push((p.id, ProxyDecision::Allow(Option::None, Option::None)));
        }
        self.selected_pending = 0;
        self.app_mode = AppMode::Normal;
        proof {
            assert forall|i: int| #![trigger out@[i]] 0 <= i < out@.len() implies out@[i].0@
                == old_dv[i].id && out@[i].1@ == ProxyDecisionV::Allow(Option::None, Option::None) by {
                assert(out@[i].0@ == old_dv[i].id);
            }
        }
        out
    }
}

impl App {
    /// Saves an operator-edited body on the selected pending entry. The
    /// text must parse as JSON, declare `"jsonrpc": "2.0"`, and carry a
    /// `method` member; on any failure the caller receives the error and
    /// nothing changes — in particular the entry's stored body is
    /// untouched.
    pub fn apply_edited_json(&mut self, edited_json: String) -> (r: Result<(), String>)
        ensures
            old(self).selected_pending >= old(self).pending_requests@.len() ==> (r matches
                Result::Err(e) && e@ == "No pending request selected"@),
            old(self).selected_pending < old(self).pending_requests@.len() ==> match json_parse(
                edited_json@,
            ) {
                Result::Err(pe) => r matches Result::Err(e) && e@ == "Invalid JSON: "@ + pe,
                Result::Ok(j) => if !jv_is_v2(j) {
                    r matches Result::Err(e) && e@ == "Missing or invalid 'jsonrpc' field"@
                } else if crate::json::jv_get(j, "method"@) is None {
                    r matches Result::Err(e) && e@ == "Missing 'method' field"@
                } else {
                    r is Ok && final(self).pending_requests.deep_view() == old(
                        self,
                    ).pending_requests.deep_view().update(
                        old(self).selected_pending as int,
                        (PendingV {
                            modified_request: Option::Some(edited_json@),
                            ..old(self).pending_requests.deep_view()[old(
                                self,
                            ).selected_pending as int]
                        }),
                    )
                },
            },
            r is Ok <==> (old(self).selected_pending < old(self).pending_requests@.len()
                && (json_parse(edited_json@) matches Result::Ok(j) && valid_request_jv(j))),
            r is Err ==> *final(self) == *old(self),
            r is Ok ==> *final(self) == (App {
                pending_requests: final(self).pending_requests,
                ..*old(self)
            }),
    {
        if self.selected_pending >= self.pending_requests.len() {
            return Result::Err(String::from_str("No pending request selected"));
        }
        let parsed = match parse_json(edited_json.as_str()) {
            Result::Ok(v) => v,
            Result::Err(e) => {
                let mut msg = String::from_str("Invalid JSON: ");
                msg.append(e.as_str());
                return Result::Err(msg);
            },
        };
        if !is_v2(&parsed) {
            return Result::Err(String::from_str("Missing or invalid 'jsonrpc' field"));
        }
        if !has_field(&parsed, "method") {
            return Result::Err(String::from_str("Missing 'method' field"));
        }
        let sel = self.selected_pending;
        let ghost old_dv = self.pending_requests.deep_view();
        let entry = &self.pending_requests[sel];
        let updated = PendingRequest {
            id: entry.id.clone(),
            original_request: entry.original_request.deep_copy(),
            modified_request: Option::Some(edited_json),
            modified_headers: copy_opt_headers(&entry.modified_headers),
        };
        self.pending_requests[sel] = updated;
        proof {
            assert(self.pending_requests.deep_view() =~= old_dv.update(
                sel as int,
                (PendingV { modified_request: final(self).pending_requests.deep_view()[sel as int].modified_request, ..old_dv[sel as int] }),
            ));
        }
        Result::Ok(())
    }

    /// Saves an operator-edited header mapping on the selected pending
    /// entry, parsed per [`parse_headers_text`]; an empty mapping is
    /// allowed. On any failure the caller receives the error and nothing
    /// changes.
    pub fn apply_edited_headers(&mut self, edited_headers: String) -> (r: Result<(), String>)
        ensures
            old(self).selected_pending >= old(self).pending_requests@.len() ==> (r matches
                Result::Err(e) && e@ == "No pending request selected"@),
            old(self).selected_pending < old(self).pending_requests@.len() ==> match
                parse_headers_text(edited_headers@) {
                Result::Err(pe) => r matches Result::Err(e) && e@ == pe,
                Result::Ok(hv) => r is Ok && final(self).pending_requests.deep_view() == old(
                    self,
                ).pending_requests.deep_view().update(
                    old(self).selected_pending as int,
                    (PendingV {
                        modified_headers: Option::Some(hv),
                        ..old(self).pending_requests.deep_view()[old(
                            self,
                        ).selected_pending as int]
                    }),
                ),
            },
            r is Err ==> *final(self) == *old(self),
            r is Ok ==> *final(self) == (App {
                pending_requests: final(self).pending_requests,
                ..*old(self)
            }),
    {
        if self.selected_pending >= self.pending_requests.len() {
            return Result::Err(String::from_str("No pending request selected"));
        }
        let headers = match parse_headers(edited_headers.as_str()) {
            Result::Ok(h) => h,
            Result::Err(e) => {
                return Result::Err(e);
            },
        };
        let sel = self.selected_pending;
        let ghost old_dv = self.pending_requests.deep_view();
        let ghost hv = headers.deep_view();
        let entry = &self.pending_requests[sel];
        let updated = PendingRequest {
            id: entry.id.clone(),
            original_request: entry.original_request.deep_copy(),
            modified_request: copy_opt_string(&entry.modified_request),
            modified_headers: Option::Some(headers),
        };
        self.pending_requests[sel] = updated;
        proof {
            assert(self.pending_requests.deep_view() =~= old_dv.update(
                sel as int,
                (PendingV { modified_headers: Option::Some(hv), ..old_dv[sel as int] }),
            ));
        }
        Result::Ok(())
    }

    /// Completes the selected pending request with an operator-supplied
    /// response. The text must parse as JSON, declare `"jsonrpc": "2.0"`,
    /// carry an `id`, and hold exactly one of `result` and `error`; on any
    /// failure the caller receives the error and the entry stays queued. On
    /// success the entry leaves the queue and its local id is returned with
    /// the `Complete` decision.
    pub fn complete_selected_request(&mut self, response_json: String) -> (r: Result<
        (String, ProxyDecision),
        String,
    >)
        ensures
            old(self).selected_pending >= old(self).pending_requests@.len() ==> (r matches
                Result::Err(e) && e@ == "No pending request selected"@),
            old(self).selected_pending < old(self).pending_requests@.len() ==> match json_parse(
                response_json@,
            ) {
                Result::Err(pe) => r matches Result::Err(e) && e@ == "Invalid JSON: "@ + pe,
                Result::Ok(j) => if !jv_is_v2(j) {
                    r matches Result::Err(e) && e@ == "Missing or invalid 'jsonrpc' field"@
                } else if crate::json::jv_get(j, "id"@) is None {
                    r matches Result::Err(e) && e@ == "Missing 'id' field"@
                } else if crate::json::jv_get(j, "result"@) is None && crate::json::jv_get(
                    j,
                    "error"@,
                ) is None {
                    r matches Result::Err(e) && e@
                        == "Response must have either 'result' or 'error' field"@
                } else if crate::json::jv_get(j, "result"@) is Some && crate::json::jv_get(
                    j,
                    "error"@,
                ) is Some {
                    r matches Result::Err(e) && e@
                        == "Response cannot have both 'result' and 'error' fields"@
                } else {
                    &&& r matches Result::Ok(pair) && pair.0@ == old(
                        self,
                    ).pending_requests.deep_view()[old(self).selected_pending as int].id
                        && pair.1@ == ProxyDecisionV::Complete(j)
                    &&& final(self).pending_requests.deep_view() == old(
                        self,
                    ).pending_requests.deep_view().remove(old(self).selected_pending as int)
                    &&& final(self).selected_pending as int == adjusted_selection(
                        old(self).selected_pending as int,
                        final(self).pending_requests@.len() as int,
                    )
                },
            },
            r is Ok <==> (old(self).selected_pending < old(self).pending_requests@.len()
                && (json_parse(response_json@) matches Result::Ok(j) && valid_response_jv(j))),
            r is Err ==> *final(self) == *old(self),
            r is Ok ==> *final(self) == (App {
                pending_requests: final(self).pending_requests,
                selected_pending: final(self).selected_pending,
                ..*old(self)
            }),
    {
        if self.selected_pending >= self.pending_requests.len() {
            return Result::Err(String::from_str("No pending request selected"));
        }
        let parsed = match parse_json(response_json.as_str()) {
            Result::Ok(v) => v,
            Result::Err(e) => {
                let mut msg = String::from_str("Invalid JSON: ");
                msg.append(e.as_str());
                return Result::Err(msg);
            },
        };
        if !is_v2(&parsed) {
            return Result::Err(String::from_str("Missing or invalid 'jsonrpc' field"));
        }
        if !has_field(&parsed, "id") {
            return Result::Err(String::from_str("Missing 'id' field"));
        }
        let has_result = has_field(&parsed, "result");
        let has_error = has_field(&parsed, "error");
        if !has_result && !has_error {
            return Result::Err(
                String::from_str("Response must have either 'result' or 'error' field"),
            );
        }
        if has_result && has_error {
            return Result::Err(
                String::from_str("Response cannot have both 'result' and 'error' fields"),
            );
        }
        let ghost old_dv = self.pending_requests.deep_view();
        let sel = self.selected_pending;
        let pending = self.pending_requests.remove(sel);
        proof {
            assert(self.pending_requests.deep_view() =~= old_dv.remove(sel as int));
        }
        if self.selected_pending > 0 && self.selected_pending >= self.pending_requests.len() {
            self.selected_pending = self.selected_pending - 1;
        }
        Result::Ok((pending.id, ProxyDecision::Complete(parsed)))
    }

    /// The editable JSON shown for the selected pending request, per
    /// [`request_editor_jv`], printed with the indented layout.
    pub fn get_pending_request_json(&self) -> (r: Option<String>)
        ensures
            self.selected_pending < self.pending_requests@.len() ==> (r matches Option::Some(s)
                && s@ == json_pretty(
                request_editor_jv(
                    self.pending_requests.deep_view()[self.selected_pending as int].original_request,
                ),
            )),
            self.selected_pending >= self.pending_requests@.len() ==> r is None,
    {
        if self.selected_pending >= self.pending_requests.len() {
            return Option::None;
        }
        let p = &self.pending_requests[self.selected_pending];
        let mut fields: Vec<(String, JsonValue)> = Vec::new();
        proof {
            crate::json::lemma_jv_field_views(fields@);
            assert(crate::json::jv_field_views(fields@) =~= Seq::<(Seq<char>, Jv)>::empty());
        }
        push_field(&mut fields, "jsonrpc", text_value("2.0"));
        push_field(
            &mut fields,
            "method",
            match &p.original_request.method {
                Option::Some(m) => JsonValue::Text(m.clone()),
                Option::None => JsonValue::Null,
            },
        );
        push_field(&mut fields, "params", id_or_null_value(&p.original_request.params));
        push_field(&mut fields, "id", id_or_null_value(&p.original_request.id));
        proof {
            let m = p@.original_request;
            let expected: Seq<(Seq<char>, Jv)> = seq![
                ("jsonrpc"@, Jv::Text("2.0"@)),
                (
                    "method"@,
                    match m.method {
                        Option::Some(t) => Jv::Text(t),
                        Option::None => Jv::Null,
                    },
                ),
                ("params"@, id_or_null(m.params)),
                ("id"@, id_or_null(m.id)),
            ];
            assert(crate::json::jv_field_views(fields@) =~= expected);
        }
        let value = JsonValue::Object(fields);
        proof {
            assert(value@ == request_editor_jv(p@.original_request));
        }
        Option::Some(to_pretty(&value))
    }

    /// The completion template shown for the selected pending request, per
    /// [`response_template_jv`], printed with the indented layout.
    pub fn get_pending_response_template(&self) -> (r: Option<String>)
        ensures
            self.selected_pending < self.pending_requests@.len() ==> (r matches Option::Some(s)
                && s@ == json_pretty(
                response_template_jv(
                    self.pending_requests.deep_view()[self.selected_pending as int].original_request,
                ),
            )),
            self.selected_pending >= self.pending_requests@.len() ==> r is None,
    {
        if self.selected_pending >= self.pending_requests.len() {
            return Option::None;
        }
        let p = &self.pending_requests[self.selected_pending];
        let mut fields: Vec<(String, JsonValue)> = Vec::new();
        proof {
            crate::json::lemma_jv_field_views(fields@);
            assert(crate::json::jv_field_views(fields@) =~= Seq::<(Seq<char>, Jv)>::empty());
        }
        push_field(&mut fields, "jsonrpc", text_value("2.0"));
        push_field(&mut fields, "id", id_or_null_value(&p.original_request.id));
        push_field(&mut fields, "result", text_value("custom response"));
        proof {
            let m = p@.original_request;
            let expected: Seq<(Seq<char>, Jv)> = seq![
                ("jsonrpc"@, Jv::Text("2.0"@)),
                ("id"@, id_or_null(m.id)),
                ("result"@, Jv::Text("custom response"@)),
            ];
            assert(crate::json::jv_field_views(fields@) =~= expected);
        }
        let value = JsonValue::Object(fields);
        proof {
            assert(value@ == response_template_jv(p@.original_request));
        }
        Option::Some(to_pretty(&value))
    }

    /// The header editor's text for the selected pending request: the
    /// effective mapping as `key: value` lines, or a commented hint when
    /// the request carried no headers.
    #[verifier::loop_isolation(false)]
    pub fn get_pending_request_headers(&self) -> (r: Option<String>)
        ensures
            self.selected_pending < self.pending_requests@.len() ==> (r matches Option::Some(s)
                && s@ == match effective_headers(
                self.pending_requests.deep_view()[self.selected_pending as int],
            ) {
                Option::Some(hs) => header_lines_text(hs),
                Option::None => "# No headers\n# Add headers in the format:\n# header-name: header-value"@,
            }),
            self.selected_pending >= self.pending_requests@.len() ==> r is None,
    {
        if self.selected_pending >= self.pending_requests.len() {
            return Option::None;
        }
        let p = &self.pending_requests[self.selected_pending];
        let headers = match &p.modified_headers {
            Option::Some(h) => h,
            Option::None => match &p.original_request.headers {
                Option::Some(h) => h,
                Option::None => {
                    return Option::Some(
                        String::from_str(
                            "# No headers\n# Add headers in the format:\n# header-name: header-value",
                        ),
                    );
                },
            },
        };
        let ghost hs = headers.deep_view();
        let mut out = String::new();
        let mut i: usize = 0;
        proof {
            assert(hs.take(0) =~= Seq::<(Seq<char>, Seq<char>)>::empty());
        }
        while i < headers.len()
            invariant
                0 <= i <= headers@.len(),
                out@ == header_lines_text(hs.take(i as int)),
            decreases headers@.len() - i,
        {
            if i > 0 {
                out.append("\n");
            }
            out.append(headers[i].0.as_str());
            out.append(": ");
            out.append(headers[i].1.as_str());
            proof {
                reveal_strlit("\n");
                assert("\n"@ =~= seq!['\n']);
                assert(hs.take(i as int + 1).drop_last() =~= hs.take(i as int));
                assert(hs.take(i as int + 1).last() == hs[i as int]);
                if i == 0 {
                    assert(out@ =~= header_line(hs[0]));
                    assert(header_lines_text(hs.take(1)) == header_line(hs.take(1)[0]));
                } else {
                    assert(out@ =~= header_lines_text(hs.take(i as int)) + seq!['\n']
                        + header_line(hs[i as int]));
                }
            }
            i += 1;
        }
        proof {
            assert(hs.take(headers@.len() as int) =~= hs);
        }
        Option::Some(out)
    }
}

} // verus!
