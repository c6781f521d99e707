//! The client's state: the transcript, the prompt being typed, the loading
//! flag and the viewport controller, with the decisions of the render loop.
use vstd::prelude::*;
use crate::ingest::Fragment;
use crate::layout::push_char;
use crate::transcript::{
    appended, append_to_open_message, is_open_spec, submit, turns, ChatMessage, Role,
};

verus! {

/// The viewport height assumed until the terminal reports one.
pub const INITIAL_VIEWPORT_HEIGHT: u16 = 10;

/// The offset that shows the bottom of `content` lines in a viewport of
/// `viewport` lines: their difference, at least 0 and at most `u16::MAX`.
pub open spec fn bottom_offset(content: int, viewport: int) -> int {
    if content <= viewport {
        0
    } else if content - viewport > u16::MAX {
        u16::MAX as int
    } else {
        content - viewport
    }
}

/// The offset after a reconciliation: the bottom while following, else the
/// offset as it was.
pub open spec fn reconciled(offset: int, content: int, viewport: int, follow: bool) -> int {
    if follow {
        bottom_offset(content, viewport)
    } else {
        offset
    }
}

/// The offset after a manual scroll by `delta` lines (negative is upward):
/// it moves by `delta`, stopping at 0 and at `u16::MAX`.
pub open spec fn scrolled(offset: int, delta: int) -> int {
    if offset + delta < 0 {
        0
    } else if offset + delta > u16::MAX {
        u16::MAX as int
    } else {
        offset + delta
    }
}

/// The concatenated text of the fragments, in order.
pub open spec fn texts(fs: Seq<Fragment>) -> Seq<char>
    decreases fs.len(),
{
    if fs.len() == 0 {
        Seq::empty()
    } else {
        texts(fs.drop_last()) + fs.last().text@
    }
}

proof fn lemma_texts_concat(a: Seq<Fragment>, b: Seq<Fragment>)
    ensures
        texts(a + b) == texts(a) + texts(b),
    decreases b.len(),
{
    if b.len() == 0 {
        assert(a + b =~= a);
        assert(texts(a) + Seq::<char>::empty() =~= texts(a));
    } else {
        lemma_texts_concat(a, b.drop_last());
        assert((a + b).drop_last() =~= a + b.drop_last());
        assert(texts(a) + texts(b.drop_last()) + b.last().text@ =~= texts(a) + (texts(
            b.drop_last(),
        ) + b.last().text@));
    }
}

/// Fragments delivered in order and drained over any number of ticks end up
/// in the open turn as their concatenation, in delivery order: draining `a`
/// and then `b` appends what draining `a` followed by `b` at once appends.
pub proof fn lemma_drains_append_in_order(
    history: Seq<(Role, Seq<char>)>,
    a: Seq<Fragment>,
    b: Seq<Fragment>,
)
    ensures
        appended(appended(history, texts(a)), texts(b)) == appended(history, texts(a + b)),
        is_open_spec(history) ==> appended(history, texts(a + b)).last().1 == history.last().1
            + texts(a) + texts(b),
{
    lemma_texts_concat(a, b);
    if is_open_spec(history) {
        let last = history.last();
        assert(last.1 + texts(a) + texts(b) =~= last.1 + (texts(a) + texts(b)));
        assert(appended(appended(history, texts(a)), texts(b)) =~= appended(
            history,
            texts(a + b),
        ));
    }
}

/// A key press, as the render loop dispatches it.
#[derive(Clone, Copy, PartialEq, Eq, Debug, Structural)]
pub enum Key {
    Char(char),
    Backspace,
    Up,
    Down,
    Enter,
    Quit,
    Other,
}

/// Relies on String::pop: removes and returns the last character, if any.
#[verifier::external_body]
fn pop_char(s: &mut String) -> (r: Option<char>)
    ensures
        old(s)@.len() == 0 ==> r is None && final(s)@ == old(s)@,
        old(s)@.len() > 0 ==> r == Some(old(s)@.last()) && final(s)@ == old(s)@.drop_last(),
{
    s.pop()
}

pub struct App {
    pub input: String,
    pub history: Vec<ChatMessage>,
    pub scroll_offset: u16,
    pub content_height: usize,
    pub terminal_height: u16,
    pub auto_scroll: bool,
    pub is_loading: bool,
    pub model_name: String,
    pub token_count: usize,
    pub exit: bool,
}

impl App {
    /// A client with an empty transcript that follows the bottom.
    pub fn new(model_name: String) -> (r: App)
        ensures
            r.input@.len() == 0,
            r.history@.len() == 0,
            r.scroll_offset == 0,
            r.content_height == 0,
            r.terminal_height == INITIAL_VIEWPORT_HEIGHT,
            r.auto_scroll,
            !r.is_loading,
            r.model_name@ == model_name@,
            r.token_count == 0,
            !r.exit,
    {
        App {
            input: String::new(),
            history: Vec::new(),
            scroll_offset: 0,
            content_height: 0,
            terminal_height: INITIAL_VIEWPORT_HEIGHT,
            auto_scroll: true,
            is_loading: false,
            model_name,
            token_count: 0,
            exit: false,
        }
    }

    /// Submits the typed prompt. When it is empty or a reply is loading,
    /// nothing changes and `None` is returned. Otherwise the prompt becomes a
    /// user turn followed by an empty assistant turn, the input is cleared,
    /// loading starts, and the prompt is returned for the request to send.
    pub fn ask_ollama(&mut self) -> (r: Option<String>)
        ensures
            old(self).input@.len() == 0 || old(self).is_loading ==> r is None && *final(self)
                == *old(self),
            old(self).input@.len() > 0 && !old(self).is_loading ==> {
                &&& r matches Some(p) && p@ == old(self).input@
                &&& turns(final(self).history@) == turns(old(self).history@).push(
                    (Role::User, old(self).input@),
                ).push((Role::Assistant, Seq::<char>::empty()))
                &&& final(self).input@.len() == 0
                &&& *final(self) == (App {
                    history: final(self).history,
                    input: final(self).input,
                    is_loading: true,
                    ..*old(self)
                })
            },
    {
        if self.input.as_str().is_empty() || self.is_loading {
            return None;
        }
        let prompt = self.input.clone();
        submit(&mut self.history, self.input.clone());
        self.input = String::new();
        self.is_loading = true;
        Some(prompt)
    }

    /// Whether the last turn is the assistant's and is still waiting for the
    /// reply's first fragment.
    pub fn is_open(&self) -> (r: bool)
        ensures
            r == (self.is_loading && is_open_spec(turns(self.history@))),
    {
        self.is_loading && crate::transcript::is_open(&self.history)
    }

    /// Drains the fragments that arrived, in order, into the open assistant
    /// turn, and returns whether any arrived. Loading ends with the first one.
    pub fn update(&mut self, fragments: &Vec<Fragment>) -> (r: bool)
        ensures
            r == (fragments@.len() > 0),
            turns(final(self).history@) == appended(turns(old(self).history@), texts(fragments@)),
            final(self).is_loading == (old(self).is_loading && fragments@.len() == 0),
            final(self).token_count == if old(self).history@.len() > 0 {
                if old(self).token_count + fragments@.len() > usize::MAX {
                    usize::MAX as int
                } else {
                    old(self).token_count + fragments@.len()
                }
            } else {
                old(self).token_count as int
            },
            *final(self) == (App {
                history: final(self).history,
                is_loading: final(self).is_loading,
                token_count: final(self).token_count,
                ..*old(self)
            }),
    {
        let ghost start = turns(self.history@);
        let ghost tokens = self.token_count;
        let n = fragments.len();
        let mut i: usize = 0;
        while i < n
            invariant
                i <= n,
                n == fragments@.len(),
                turns(self.history@) == appended(start, texts(fragments@.take(i as int))),
                self.is_loading == (old(self).is_loading && i == 0),
                self.token_count == if start.len() > 0 {
                    if tokens + i > usize::MAX {
                        usize::MAX as int
                    } else {
                        tokens + i
                    }
                } else {
                    tokens as int
                },
                *self == (App {
                    history: self.history,
                    is_loading: self.is_loading,
                    token_count: self.token_count,
                    ..*old(self)
                }),
            decreases n - i,
        {
            self.is_loading = false;
            let ghost done = texts(fragments@.take(i as int));
            append_to_open_message(&mut self.history, fragments[i].text.as_str());
            if self.history.len() > 0 {
                self.token_count = self.token_count.saturating_add(1);
            }
            assert(fragments@.take(i + 1).drop_last() =~= fragments@.take(i as int));
            assert(texts(fragments@.take(i + 1)) == done + fragments@[i as int].text@);
            proof {
                if is_open_spec(start) {
                assert(done + fragments@[i as int].text@ + Seq::<char>::empty() =~= done
                    + fragments@[i as int].text@);
                assert(start.last().1 + done + fragments@[i as int].text@ =~= start.last().1 + (
                done + fragments@[i as int].text@));
                assert(turns(self.history@) =~= appended(start, texts(fragments@.take(i + 1))));
                }
            }
            i = i + 1;
        }
        assert(fragments@.take(n as int) =~= fragments@);
        n > 0
    }

    /// Measures the transcript's estimated height and reconciles the offset
    /// with it.
    pub fn recalculate_scroll(&mut self)
        ensures
            final(self).content_height == crate::layout::saturated(
                crate::layout::transcript_height(turns(old(self).history@)),
            ),
            final(self).scroll_offset == reconciled(
                old(self).scroll_offset as int,
                final(self).content_height as int,
                old(self).terminal_height as int,
                old(self).auto_scroll,
            ),
            *final(self) == (App {
                content_height: final(self).content_height,
                scroll_offset: final(self).scroll_offset,
                ..*old(self)
            }),
    {
        let height = crate::layout::content_height(&self.history);
        self.on_measured_content_height(height);
        self.reconcile();
    }

    /// Sets the viewport height.
    pub fn on_resize(&mut self, viewport_height: u16)
        ensures
            *final(self) == (App { terminal_height: viewport_height, ..*old(self) }),
    {
        self.terminal_height = viewport_height;
    }

    /// Sets the measured height of the content.
    pub fn on_measured_content_height(&mut self, height: usize)
        ensures
            *final(self) == (App { content_height: height, ..*old(self) }),
    {
        self.content_height = height;
    }

    /// While following, moves the offset to the bottom; otherwise leaves it.
    pub fn reconcile(&mut self)
        ensures
            final(self).scroll_offset == reconciled(
                old(self).scroll_offset as int,
                old(self).content_height as int,
                old(self).terminal_height as int,
                old(self).auto_scroll,
            ),
            *final(self) == (App { scroll_offset: final(self).scroll_offset, ..*old(self) }),
    {
        if self.auto_scroll {
            self.scroll_offset = bottom(self.content_height, self.terminal_height);
        }
    }

    /// Takes the measured content height and the viewport height, then
    /// reconciles the offset.
    pub fn enforce_auto_scroll(&mut self, total_lines: usize, viewport_height: u16)
        ensures
            final(self).content_height == total_lines,
            final(self).terminal_height == viewport_height,
            final(self).scroll_offset == reconciled(
                old(self).scroll_offset as int,
                total_lines as int,
                viewport_height as int,
                old(self).auto_scroll,
            ),
            *final(self) == (App {
                content_height: total_lines,
                terminal_height: viewport_height,
                scroll_offset: final(self).scroll_offset,
                ..*old(self)
            }),
    {
        self.on_measured_content_height(total_lines);
        self.on_resize(viewport_height);
        self.reconcile();
    }

    /// Jumps to the bottom and follows it again.
    pub fn scroll_to_bottom(&mut self)
        ensures
            final(self).auto_scroll,
            final(self).scroll_offset == bottom_offset(
                old(self).content_height as int,
                old(self).terminal_height as int,
            ),
            *final(self) == (App {
                auto_scroll: true,
                scroll_offset: final(self).scroll_offset,
                ..*old(self)
            }),
    {
        self.auto_scroll = true;
        self.scroll_offset = bottom(self.content_height, self.terminal_height);
    }

    /// Scrolls by `delta` lines, negative upward. Upward scrolling stops
    /// following the bottom; downward scrolling does not resume it.
    pub fn on_manual_scroll(&mut self, delta: i32)
        ensures
            final(self).scroll_offset == scrolled(old(self).scroll_offset as int, delta as int),
            final(self).auto_scroll == (old(self).auto_scroll && delta >= 0),
            *final(self) == (App {
                auto_scroll: final(self).auto_scroll,
                scroll_offset: final(self).scroll_offset,
                ..*old(self)
            }),
    {
        if delta < 0 {
            self.auto_scroll = false;
        }
        let moved = self.scroll_offset as i64 + delta as i64;
        self.scroll_offset = if moved < 0 {
            0
        } else if moved > u16::MAX as i64 {
            u16::MAX
        } else {
            moved as u16
        };
    }

    /// Handles one key press and returns the prompt to send, if one was
    /// submitted: a character is typed, backspace erases the last one, the
    /// arrows scroll by one line, enter submits and quit ends the loop.
    pub fn on_key(&mut self, key: Key) -> (r: Option<String>)
        ensures
            key != Key::Enter ==> r is None,
            key matches Key::Char(c) ==> *final(self) == (App {
                input: final(self).input,
                ..*old(self)
            }) && final(self).input@ == old(self).input@.push(c),
            key == Key::Backspace ==> *final(self) == (App { input: final(self).input, ..*old(self) })
                && final(self).input@ == if old(self).input@.len() == 0 {
                old(self).input@
            } else {
                old(self).input@.drop_last()
            },
            key == Key::Up ==> *final(self) == (App {
                auto_scroll: false,
                scroll_offset: scrolled(old(self).scroll_offset as int, -1) as u16,
                ..*old(self)
            }),
            key == Key::Down ==> *final(self) == (App {
                scroll_offset: scrolled(old(self).scroll_offset as int, 1) as u16,
                ..*old(self)
            }),
            key == Key::Enter ==> (old(self).input@.len() == 0 || old(self).is_loading ==> r is None
                && *final(self) == *old(self)),
            key == Key::Enter ==> (old(self).input@.len() > 0 && !old(self).is_loading ==> {
                &&& r matches Some(p) && p@ == old(self).input@
                &&& turns(final(self).history@) == turns(old(self).history@).push(
                    (Role::User, old(self).input@),
                ).push((Role::Assistant, Seq::<char>::empty()))
                &&& final(self).input@.len() == 0
                &&& *final(self) == (App {
                    history: final(self).history,
                    input: final(self).input,
                    is_loading: true,
                    ..*old(self)
                })
            }),
            key == Key::Quit ==> *final(self) == (App { exit: true, ..*old(self) }),
            key == Key::Other ==> *final(self) == *old(self),
    {
        match key {
            Key::Char(c) => {
                push_char(&mut self.input, c);
                None
            },
            Key::Backspace => {
                pop_char(&mut self.input);
                None
            },
            Key::Up => {
                self.on_manual_scroll(-1);
                None
            },
            Key::Down => {
                self.on_manual_scroll(1);
                None
            },
            Key::Enter => self.ask_ollama(),
            Key::Quit => {
                self.exit = true;
                None
            },
            Key::Other => None,
        }
    }
}

/// The offset that shows the bottom of the content.
fn bottom(content: usize, viewport: u16) -> (r: u16)
    ensures
        r == bottom_offset(content as int, viewport as int),
{
    let v = viewport as usize;
    if content <= v {
        0
    } else if content - v > 65535 {
        u16::MAX
    } else {
        (content - v) as u16
    }
}

/// Reconciling twice with unchanged inputs gives the offset that
/// reconciling once gives.
pub proof fn lemma_reconcile_idempotent(offset: u16, content: usize, viewport: u16, follow: bool)
    ensures
        reconciled(
            reconciled(offset as int, content as int, viewport as int, follow),
            content as int,
            viewport as int,
            follow,
        ) == reconciled(offset as int, content as int, viewport as int, follow),
{
}

/// While following, reconciling with content taller than the viewport puts
/// the offset at their difference (which the offset's type must hold).
pub proof fn lemma_follow_shows_bottom(offset: u16, content: usize, viewport: u16)
    requires
        content > viewport,
        content - viewport <= u16::MAX,
    ensures
        reconciled(offset as int, content as int, viewport as int, true) == content - viewport,
{
}

/// One line of upward scrolling lowers the offset by one, stopping at 0.
pub proof fn lemma_single_upward_scroll(offset: u16)
    ensures
        scrolled(offset as int, -1) == if offset == 0 {
            0
        } else {
            offset - 1
        },
{
}

} // verus!
