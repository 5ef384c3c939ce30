//! Controller state: the exchange list, selections, scroll offsets, the
//! filter and input line, and the pause mode.

use vstd::prelude::*;

use vstd::string::StrSliceExecFns;
use vstd::string::StringExecFns;

use crate::model::{
    AppMode, InputMode, JsonRpcExchange, PendingRequest, ProxyConfig, TransportType,
};
use crate::text::{has_substring, trim_spec, trim_str};

verus! {

broadcast use vstd::std_specs::vec::group_vec_axioms, vstd::seq::group_seq_axioms;

/// The controller's state. The embedding program drains the capture and
/// pending channels and hands their contents to this type; every rule about
/// what the state does with them lives here.
pub struct App {
    pub exchanges: Vec<JsonRpcExchange>,
    pub selected_exchange: usize,
    pub filter_text: String,
    pub details_scroll: usize,
    pub intercept_details_scroll: usize,
    pub proxy_config: ProxyConfig,
    pub is_running: bool,
    pub input_mode: InputMode,
    pub input_buffer: String,
    pub app_mode: AppMode,
    pub pending_requests: Vec<PendingRequest>,
    pub selected_pending: usize,
    pub request_editor_buffer: String,
}

/// Whether an exchange passes the method filter: an empty filter passes
/// everything, otherwise the method text (empty when absent) must contain
/// the filter text.
pub open spec fn matches_filter(method: Option<Seq<char>>, filter: Seq<char>) -> bool {
    filter.len() == 0 || has_substring(
        match method {
            Option::Some(m) => m,
            Option::None => Seq::empty(),
        },
        filter,
    )
}

impl App {
    /// A fresh controller: no traffic, nothing selected, proxying enabled on
    /// port 8080 with no upstream configured yet.
    pub fn new() -> (r: App)
        ensures
            r.exchanges@.len() == 0,
            r.selected_exchange == 0,
            r.filter_text@ == Seq::<char>::empty(),
            r.details_scroll == 0,
            r.intercept_details_scroll == 0,
            r.proxy_config.listen_port == 8080,
            r.proxy_config.target_url@ == Seq::<char>::empty(),
            r.proxy_config.transport == TransportType::Http,
            r.is_running,
            r.input_mode == InputMode::Normal,
            r.input_buffer@ == Seq::<char>::empty(),
            r.app_mode == AppMode::Normal,
            r.pending_requests@.len() == 0,
            r.selected_pending == 0,
            r.request_editor_buffer@ == Seq::<char>::empty(),
    {
        App {
            exchanges: Vec::new(),
            selected_exchange: 0,
            filter_text: String::new(),
            details_scroll: 0,
            intercept_details_scroll: 0,
            proxy_config: ProxyConfig {
                listen_port: 8080,
                target_url: String::new(),
                transport: TransportType::Http,
            },
            is_running: true,
            input_mode: InputMode::Normal,
            input_buffer: String::new(),
            app_mode: AppMode::Normal,
            pending_requests: Vec::new(),
            selected_pending: 0,
            request_editor_buffer: String::new(),
        }
    }

    /// The exchange under the cursor, if the cursor is in range.
    pub fn get_selected_exchange(&self) -> (r: Option<&JsonRpcExchange>)
        ensures
            self.selected_exchange < self.exchanges@.len() ==> (r matches Option::Some(e) && *e
                == self.exchanges@[self.selected_exchange as int]),
            self.selected_exchange >= self.exchanges@.len() ==> r is None,
    {
        if self.selected_exchange < self.exchanges.len() {
            Option::Some(&self.exchanges[self.selected_exchange])
        } else {
            Option::None
        }
    }

    /// Moves the exchange cursor forward, wrapping, and resets the detail
    /// scroll; does nothing on an empty list.
    pub fn select_next(&mut self)
        requires
            old(self).selected_exchange < usize::MAX,
        ensures
            old(self).exchanges@.len() == 0 ==> *final(self) == *old(self),
            old(self).exchanges@.len() > 0 ==> *final(self) == (App {
                selected_exchange: ((old(self).selected_exchange + 1)
                    % (old(self).exchanges@.len() as int)) as usize,
                details_scroll: 0,
                ..*old(self)
            }),
    {
        if self.exchanges.len() > 0 {
            self.selected_exchange = (self.selected_exchange + 1) % self.exchanges.len();
            self.details_scroll = 0;
        }
    }

    /// Moves the exchange cursor backward, wrapping, and resets the detail
    /// scroll; does nothing on an empty list.
    pub fn select_previous(&mut self)
        ensures
            old(self).exchanges@.len() == 0 ==> *final(self) == *old(self),
            old(self).exchanges@.len() > 0 ==> *final(self) == (App {
                selected_exchange: if old(self).selected_exchange == 0 {
                    (old(self).exchanges@.len() - 1) as usize
                } else {
                    (old(self).selected_exchange - 1) as usize
                },
                details_scroll: 0,
                ..*old(self)
            }),
    {
        if self.exchanges.len() > 0 {
            self.selected_exchange = if self.selected_exchange == 0 {
                self.exchanges.len() - 1
            } else {
                self.selected_exchange - 1
            };
            self.details_scroll = 0;
        }
    }

    /// Flips the proxy's running flag.
    pub fn toggle_proxy(&mut self)
        ensures
            *final(self) == (App { is_running: !old(self).is_running, ..*old(self) }),
    {
        self.is_running = !self.is_running;
    }

    /// Scrolls the detail pane up one line, stopping at the top.
    pub fn scroll_details_up(&mut self)
        ensures
            *final(self) == (App {
                details_scroll: if old(self).details_scroll > 0 {
                    (old(self).details_scroll - 1) as usize
                } else {
                    0
                },
                ..*old(self)
            }),
    {
        if self.details_scroll > 0 {
            self.details_scroll = self.details_scroll - 1;
        }
    }

    /// Scrolls the detail pane down one line while content remains below.
    pub fn scroll_details_down(&mut self, max_lines: usize, visible_lines: usize)
        ensures
            *final(self) == (App {
                details_scroll: if max_lines > visible_lines && old(self).details_scroll
                    < max_lines - visible_lines {
                    (old(self).details_scroll + 1) as usize
                } else {
                    old(self).details_scroll
                },
                ..*old(self)
            }),
    {
        if max_lines > visible_lines && self.details_scroll < max_lines - visible_lines {
            self.details_scroll = self.details_scroll + 1;
        }
    }

    /// Returns the detail pane to the top.
    pub fn reset_details_scroll(&mut self)
        ensures
            *final(self) == (App { details_scroll: 0, ..*old(self) }),
    {
        self.details_scroll = 0;
    }

    /// Scrolls the intercept pane up one line, stopping at the top.
    pub fn scroll_intercept_details_up(&mut self)
        ensures
            *final(self) == (App {
                intercept_details_scroll: if old(self).intercept_details_scroll > 0 {
                    (old(self).intercept_details_scroll - 1) as usize
                } else {
                    0
                },
                ..*old(self)
            }),
    {
        if self.intercept_details_scroll > 0 {
            self.intercept_details_scroll = self.intercept_details_scroll - 1;
        }
    }

    /// Scrolls the intercept pane down one line while content remains below.
    pub fn scroll_intercept_details_down(&mut self, max_lines: usize, visible_lines: usize)
        ensures
            *final(self) == (App {
                intercept_details_scroll: if max_lines > visible_lines
                    && old(self).intercept_details_scroll < max_lines - visible_lines {
                    (old(self).intercept_details_scroll + 1) as usize
                } else {
                    old(self).intercept_details_scroll
                },
                ..*old(self)
            }),
    {
        if max_lines > visible_lines && self.intercept_details_scroll < max_lines
            - visible_lines {
            self.intercept_details_scroll = self.intercept_details_scroll + 1;
        }
    }

    /// Returns the intercept pane to the top.
    pub fn reset_intercept_details_scroll(&mut self)
        ensures
            *final(self) == (App { intercept_details_scroll: 0, ..*old(self) }),
    {
        self.intercept_details_scroll = 0;
    }

    /// Scrolls the intercept pane half a page down.
    pub fn page_down_intercept_details(&mut self, visible_lines: usize)
        requires
            old(self).intercept_details_scroll + visible_lines / 2 <= usize::MAX,
        ensures
            *final(self) == (App {
                intercept_details_scroll: (old(self).intercept_details_scroll
                    + visible_lines / 2) as usize,
                ..*old(self)
            }),
    {
        self.intercept_details_scroll = self.intercept_details_scroll + visible_lines / 2;
    }

    /// Scrolls the intercept pane ten lines up, stopping at the top.
    pub fn page_up_intercept_details(&mut self)
        ensures
            *final(self) == (App {
                intercept_details_scroll: if old(self).intercept_details_scroll >= 10 {
                    (old(self).intercept_details_scroll - 10) as usize
                } else {
                    0
                },
                ..*old(self)
            }),
    {
        if self.intercept_details_scroll >= 10 {
            self.intercept_details_scroll = self.intercept_details_scroll - 10;
        } else {
            self.intercept_details_scroll = 0;
        }
    }

    /// Jumps the intercept pane to the top.
    pub fn goto_top_intercept_details(&mut self)
        ensures
            *final(self) == (App { intercept_details_scroll: 0, ..*old(self) }),
    {
        self.intercept_details_scroll = 0;
    }

    /// Jumps the intercept pane to the bottom.
    pub fn goto_bottom_intercept_details(&mut self, max_lines: usize, visible_lines: usize)
        ensures
            *final(self) == (App {
                intercept_details_scroll: if max_lines > visible_lines {
                    (max_lines - visible_lines) as usize
                } else {
                    old(self).intercept_details_scroll
                },
                ..*old(self)
            }),
    {
        if max_lines > visible_lines {
            self.intercept_details_scroll = max_lines - visible_lines;
        }
    }

    /// Scrolls the detail pane half a page down.
    pub fn page_down_details(&mut self, visible_lines: usize)
        requires
            old(self).details_scroll + visible_lines / 2 <= usize::MAX,
        ensures
            *final(self) == (App {
                details_scroll: (old(self).details_scroll + visible_lines / 2) as usize,
                ..*old(self)
            }),
    {
        self.details_scroll = self.details_scroll + visible_lines / 2;
    }

    /// Scrolls the detail pane ten lines up, stopping at the top.
    pub fn page_up_details(&mut self)
        ensures
            *final(self) == (App {
                details_scroll: if old(self).details_scroll >= 10 {
                    (old(self).details_scroll - 10) as usize
                } else {
                    0
                },
                ..*old(self)
            }),
    {
        if self.details_scroll >= 10 {
            self.details_scroll = self.details_scroll - 10;
        } else {
            self.details_scroll = 0;
        }
    }

    /// Jumps the detail pane to the top.
    pub fn goto_top_details(&mut self)
        ensures
            *final(self) == (App { details_scroll: 0, ..*old(self) }),
    {
        self.details_scroll = 0;
    }

    /// Jumps the detail pane to the bottom.
    pub fn goto_bottom_details(&mut self, max_lines: usize, visible_lines: usize)
        ensures
            *final(self) == (App {
                details_scroll: if max_lines > visible_lines {
                    (max_lines - visible_lines) as usize
                } else {
                    old(self).details_scroll
                },
                ..*old(self)
            }),
    {
        if max_lines > visible_lines {
            self.details_scroll = max_lines - visible_lines;
        }
    }

    /// Opens the filter input line with an empty buffer.
    pub fn start_filtering_requests(&mut self)
        ensures
            *final(self) == (App {
                input_mode: InputMode::FilteringRequests,
                input_buffer: final(self).input_buffer,
                ..*old(self)
            }),
            final(self).input_buffer@ == Seq::<char>::empty(),
    {
        self.input_mode = InputMode::FilteringRequests;
        self.input_buffer = String::new();
    }

    /// Abandons the filter input line, keeping the previous filter.
    pub fn cancel_filtering(&mut self)
        ensures
            *final(self) == (App {
                input_mode: InputMode::Normal,
                input_buffer: final(self).input_buffer,
                ..*old(self)
            }),
            final(self).input_buffer@ == Seq::<char>::empty(),
    {
        self.input_mode = InputMode::Normal;
        self.input_buffer = String::new();
    }

    /// Installs the typed text as the method filter.
    pub fn apply_filter(&mut self)
        ensures
            *final(self) == (App {
                input_mode: InputMode::Normal,
                input_buffer: final(self).input_buffer,
                filter_text: final(self).filter_text,
                ..*old(self)
            }),
            final(self).filter_text@ == old(self).input_buffer@,
            final(self).input_buffer@ == Seq::<char>::empty(),
    {
        self.filter_text = self.input_buffer.clone();
        self.input_mode = InputMode::Normal;
        self.input_buffer = String::new();
    }

    /// Opens the target-URL input line with an empty buffer.
    pub fn start_editing_target(&mut self)
        ensures
            *final(self) == (App {
                input_mode: InputMode::EditingTarget,
                input_buffer: final(self).input_buffer,
                ..*old(self)
            }),
            final(self).input_buffer@ == Seq::<char>::empty(),
    {
        self.input_mode = InputMode::EditingTarget;
        self.input_buffer = String::new();
    }

    /// Abandons the target-URL input line.
    pub fn cancel_editing(&mut self)
        ensures
            *final(self) == (App {
                input_mode: InputMode::Normal,
                input_buffer: final(self).input_buffer,
                ..*old(self)
            }),
            final(self).input_buffer@ == Seq::<char>::empty(),
    {
        self.input_mode = InputMode::Normal;
        self.input_buffer = String::new();
    }

    /// Installs the typed text, trimmed, as the upstream target; typed
    /// white space alone leaves the target unchanged.
    pub fn confirm_target_edit(&mut self)
        ensures
            final(self).input_mode == InputMode::Normal,
            final(self).input_buffer@ == Seq::<char>::empty(),
            trim_spec(old(self).input_buffer@).len() > 0
                ==> final(self).proxy_config.target_url@ == trim_spec(old(self).input_buffer@),
            trim_spec(old(self).input_buffer@).len() == 0
                ==> final(self).proxy_config.target_url@ == old(self).proxy_config.target_url@,
            final(self).proxy_config.listen_port == old(self).proxy_config.listen_port,
            final(self).proxy_config.transport == old(self).proxy_config.transport,
            final(self).exchanges == old(self).exchanges,
            final(self).selected_exchange == old(self).selected_exchange,
            final(self).filter_text == old(self).filter_text,
            final(self).details_scroll == old(self).details_scroll,
            final(self).intercept_details_scroll == old(self).intercept_details_scroll,
            final(self).is_running == old(self).is_running,
            final(self).app_mode == old(self).app_mode,
            final(self).pending_requests == old(self).pending_requests,
            final(self).selected_pending == old(self).selected_pending,
            final(self).request_editor_buffer == old(self).request_editor_buffer,
    {
        let trimmed = trim_str(self.input_buffer.as_str());
        if trimmed.unicode_len() > 0 {
            let t = String::from_str(trimmed);
            self.proxy_config.target_url = t;
        }
        self.input_mode = InputMode::Normal;
        self.input_buffer = String::new();
    }

    /// Appends a typed character to the input line when one is open.
    pub fn handle_input_char(&mut self, c: char)
        ensures
            old(self).input_mode == InputMode::EditingTarget || old(self).input_mode
                == InputMode::FilteringRequests ==> (*final(self) == (App {
                input_buffer: final(self).input_buffer,
                ..*old(self)
            }) && final(self).input_buffer@ == old(self).input_buffer@.push(c)),
            old(self).input_mode == InputMode::Normal ==> *final(self) == *old(self),
    {
        if self.input_mode == InputMode::EditingTarget || self.input_mode
            == InputMode::FilteringRequests {
            self.input_buffer.push(c);
        }
    }

    /// Removes the last typed character from the input line when one is open.
    pub fn handle_backspace(&mut self)
        ensures
            old(self).input_mode == InputMode::EditingTarget || old(self).input_mode
                == InputMode::FilteringRequests ==> (*final(self) == (App {
                input_buffer: final(self).input_buffer,
                ..*old(self)
            }) && final(self).input_buffer@ == if old(self).input_buffer@.len() > 0 {
                old(self).input_buffer@.drop_last()
            } else {
                old(self).input_buffer@
            }),
            old(self).input_mode == InputMode::Normal ==> *final(self) == *old(self),
    {
        if self.input_mode == InputMode::EditingTarget || self.input_mode
            == InputMode::FilteringRequests {
            let len = self.input_buffer.as_str().unicode_len();
            if len > 0 {
                let shorter = String::from_str(
                    self.input_buffer.as_str().substring_char(0, len - 1),
                );
                proof {
                    assert(old(self).input_buffer@.subrange(
                        0,
                        old(self).input_buffer@.len() - 1,
                    ) =~= old(self).input_buffer@.drop_last());
                }
                self.input_buffer = shorter;
            }
        }
    }

    /// Flips between `Normal` and `Paused`; `Intercepting` returns to
    /// `Normal`.
    pub fn toggle_pause_mode(&mut self)
        ensures
            *final(self) == (App {
                app_mode: match old(self).app_mode {
                    AppMode::Normal => AppMode::Paused,
                    AppMode::Paused => AppMode::Normal,
                    AppMode::Intercepting => AppMode::Normal,
                },
                ..*old(self)
            }),
    {
        self.app_mode = match self.app_mode {
            AppMode::Normal => AppMode::Paused,
            AppMode::Paused => AppMode::Normal,
            AppMode::Intercepting => AppMode::Normal,
        };
    }

    /// Whether the exchange under index `i` passes the current filter.
    pub fn exchange_passes_filter(&self, i: usize) -> (r: bool)
        requires
            i < self.exchanges@.len(),
        ensures
            r == matches_filter(
                self.exchanges@[i as int]@.method,
                self.filter_text@,
            ),
    {
        if self.filter_text.as_str().unicode_len() == 0 {
            return true;
        }
        match &self.exchanges[i].method {
            Option::Some(m) => crate::text::contains_sub(m.as_str(), self.filter_text.as_str()),
            Option::None => {
                proof {
                    reveal_strlit("");
                    assert(""@ =~= Seq::<char>::empty());
                }
                crate::text::contains_sub("", self.filter_text.as_str())
            },
        }
    }
}

} // verus!
