//! The chat window's state and its update rules.
//!
//! The state is a plain record: the text input buffer, the list of chat
//! messages shown, the list of tab identifiers with the optional active tab,
//! and the overlay flag. [`App::update`] consumes one user event, changes the
//! state, and returns the [`Action`] that the surrounding shell must perform
//! (scroll, open a link, or nothing). The full transition relation is written
//! out in [`update_spec`] and proved of the implementation.

use vstd::prelude::*;

verus! {

/// A color given by its three 8-bit channels.
#[derive(Clone, Copy, Debug, PartialEq, Eq, Structural)]
pub struct Rgb {
    pub r: u8,
    pub g: u8,
    pub b: u8,
}

/// The author of a chat message: a display name and its color.
#[derive(Clone, Debug)]
pub struct TwitchUser {
    pub name: String,
    pub color: Rgb,
}

/// One chat message: when it was sent (seconds since the Unix epoch),
/// who sent it, and its raw markdown source.
#[derive(Clone, Debug)]
pub struct TwitchMessage {
    pub sent: i64,
    pub user: TwitchUser,
    pub content: String,
}

/// One user event coming out of the chat window.
#[derive(Clone, Debug)]
pub enum Message {
    /// The text input buffer was edited to this value.
    Input(String),
    /// The user submitted this text.
    Send(String),
    /// The user clicked a link in a rendered message.
    LinkClicked(String),
    /// The settings button was pressed.
    OpenSettings,
    /// The account button was pressed.
    OpenAccount,
    /// The emoji button was pressed.
    OpenEmojiPanel,
    /// A tab header was pressed.
    SwitchTab(u64),
    /// The add-tab button was pressed.
    AddTab,
    /// A tab's close button was pressed.
    CloseTab(u64),
}

/// What the shell around the library must do after an update.
#[derive(Clone, Debug)]
pub enum Action {
    /// No effect.
    Nothing,
    /// Move keyboard focus to the first focusable widget.
    FocusInput,
    /// Scroll the chat list to its end.
    SnapChatToEnd,
    /// Scroll the tab bar to its end.
    SnapTabBarToEnd,
    /// Open this URL in the system's default handler.
    OpenUrl(String),
    /// The settings panel was requested (nothing backs it yet).
    SettingsRequested,
    /// The account panel was requested (nothing backs it yet).
    AccountRequested,
    /// The emoji panel was requested (nothing backs it yet).
    EmojiPanelRequested,
}

/// The chat window's whole state.
#[derive(Clone, Debug)]
pub struct App {
    /// The current contents of the text input.
    pub input: String,
    /// The messages shown in the chat list, oldest first.
    pub items: Vec<TwitchMessage>,
    /// The open tab identifiers, in display order.
    pub tabs: Vec<u64>,
    /// The selected tab, if any.
    pub active_tab: Option<u64>,
    /// Whether the window runs as a frameless overlay.
    pub overlay: bool,
}

/// Whether `c` has the Unicode White_Space property, the set of code points
/// that `char::is_whitespace` accepts.
pub open spec fn is_space(c: char) -> bool {
    let u: u32 = c as u32;
    (0x9 <= u && u <= 0xD) || u == 0x20 || u == 0x85 || u == 0xA0 || u == 0x1680 || (0x2000 <= u
        && u <= 0x200A) || u == 0x2028 || u == 0x2029 || u == 0x202F || u == 0x205F || u == 0x3000
}

/// Whether `s` holds nothing but whitespace, so that trimming it leaves
/// the empty string.
pub open spec fn blank(s: Seq<char>) -> bool {
    forall|i: int| 0 <= i < s.len() ==> is_space(#[trigger] s[i])
}

/// The largest identifier among `tabs`, or 0 when there are none.
pub open spec fn max_tab_id(tabs: Seq<u64>) -> int
    decreases tabs.len(),
{
    if tabs.len() == 0 {
        0
    } else {
        let rest = max_tab_id(tabs.drop_last());
        if tabs.last() as int > rest {
            tabs.last() as int
        } else {
            rest
        }
    }
}

/// `tabs` with every occurrence of `tab` removed, order kept.
pub open spec fn without_tab(tabs: Seq<u64>, tab: u64) -> Seq<u64>
    decreases tabs.len(),
{
    if tabs.len() == 0 {
        tabs
    } else {
        let rest = without_tab(tabs.drop_last(), tab);
        if tabs.last() == tab {
            rest
        } else {
            rest.push(tabs.last())
        }
    }
}

/// The selection, if set, references a live tab identifier.
pub open spec fn selection_live(s: App) -> bool {
    s.active_tab matches Some(t) ==> s.tabs@.contains(t)
}

/// The transition relation of the chat window: how one event takes the state
/// `pre` to the state `post`, and which effect `action` the shell must
/// perform. The `sent` stamp of a newly appended message is deliberately
/// unconstrained: it is read from the system clock, with a fixed fallback
/// when the clock cannot be read.
pub open spec fn update_spec(pre: App, post: App, message: Message, action: Action) -> bool {
    match message {
        Message::Input(s) => {
            &&& post.input@ == s@
            &&& post.items@ == pre.items@
            &&& post.tabs@ == pre.tabs@
            &&& post.active_tab == pre.active_tab
            &&& post.overlay == pre.overlay
            &&& action is Nothing
        },
        Message::Send(s) => {
            if blank(s@) {
                &&& post == pre
                &&& action is Nothing
            } else {
                &&& post.items@.len() == pre.items@.len() + 1
                &&& post.items@.drop_last() == pre.items@
                &&& post.items@.last().user.name@ == "Me"@
                &&& post.items@.last().user.color == (Rgb { r: 255, g: 255, b: 255 })
                &&& post.items@.last().content@ == s@
                &&& post.input@ == Seq::<char>::empty()
                &&& post.tabs@ == pre.tabs@
                &&& post.active_tab == pre.active_tab
                &&& post.overlay == pre.overlay
                &&& action is SnapChatToEnd
            }
        },
        Message::LinkClicked(u) => {
            &&& post == pre
            &&& action == Action::OpenUrl(u)
        },
        Message::OpenSettings => {
            &&& post == pre
            &&& action is SettingsRequested
        },
        Message::OpenAccount => {
            &&& post == pre
            &&& action is AccountRequested
        },
        Message::OpenEmojiPanel => {
            &&& post == pre
            &&& action is EmojiPanelRequested
        },
        Message::SwitchTab(t) => {
            &&& post.active_tab == Some(t)
            &&& post.input@ == pre.input@
            &&& post.items@ == pre.items@
            &&& post.tabs@ == pre.tabs@
            &&& post.overlay == pre.overlay
            &&& action is Nothing
        },
        Message::AddTab => {
            &&& post.tabs@ == pre.tabs@.push((max_tab_id(pre.tabs@) + 1) as u64)
            &&& post.input@ == pre.input@
            &&& post.items@ == pre.items@
            &&& post.active_tab == pre.active_tab
            &&& post.overlay == pre.overlay
            &&& action is SnapTabBarToEnd
        },
        Message::CloseTab(t) => {
            &&& post.tabs@ == without_tab(pre.tabs@, t)
            &&& post.active_tab == (if pre.active_tab == Some(t) {
                Option::<u64>::None
            } else {
                pre.active_tab
            })
            &&& post.input@ == pre.input@
            &&& post.items@ == pre.items@
            &&& post.overlay == pre.overlay
            &&& action is Nothing
        },
    }
}

/// Relies on `jiff::Timestamp`'s fallible `TryFrom<std::time::SystemTime>`
/// conversion and on `Timestamp::as_second`: the current time as whole
/// seconds since the Unix epoch, or `None` when the system clock lies
/// outside jiff's range. jiff keeps every timestamp's seconds within
/// -377705023201..=253402207200 (years -9999 to 9999), which bounds any
/// returned value; the conversion returns an error instead of panicking.
#[verifier::external_body]
fn now_second() -> (r: Option<i64>)
    ensures
        r matches Some(s) ==> -377705023201 <= s <= 253402207200,
{
    jiff::Timestamp::try_from(std::time::SystemTime::now()).ok().map(|t| t.as_second())
}

/// Whether `c` has the Unicode White_Space property; the executable twin
/// of [`is_space`].
pub fn char_is_space(c: char) -> (r: bool)
    ensures
        r == is_space(c),
{
    let u: u32 = c as u32;
    (0x9 <= u && u <= 0xD) || u == 0x20 || u == 0x85 || u == 0xA0 || u == 0x1680 || (0x2000 <= u
        && u <= 0x200A) || u == 0x2028 || u == 0x2029 || u == 0x202F || u == 0x205F || u == 0x3000
}

/// Whether `s` holds nothing but whitespace, so that `s.trim()` would
/// leave the empty string.
pub fn is_blank(s: &str) -> (r: bool)
    ensures
        r == blank(s@),
{
    let n = s.unicode_len();
    let mut i: usize = 0;
    while i < n
        invariant
            n == s@.len(),
            0 <= i <= n,
            forall|j: int| 0 <= j < i ==> is_space(#[trigger] s@[j]),
        decreases n - i,
    {
        let c = s.get_char(i);
        if !char_is_space(c) {
            proof {
                assert(!is_space(s@[i as int]));
            }
            return false;
        }
        i = i + 1;
    }
    true
}

proof fn lemma_without_tab_contains(tabs: Seq<u64>, tab: u64, x: u64)
    requires
        tabs.contains(x),
        x != tab,
    ensures
        without_tab(tabs, tab).contains(x),
    decreases tabs.len(),
{
    let i = choose|i: int| 0 <= i < tabs.len() && tabs[i] == x;
    if i == tabs.len() - 1 {
        if tabs.last() == tab {
            assert(false);
        } else {
            let rest = without_tab(tabs.drop_last(), tab);
            assert(rest.push(x).last() == x);
            assert(rest.push(x).contains(x));
        }
    } else {
        assert(tabs.drop_last()[i] == x);
        assert(tabs.drop_last().contains(x));
        lemma_without_tab_contains(tabs.drop_last(), tab, x);
        let rest = without_tab(tabs.drop_last(), tab);
        let j = choose|j: int| 0 <= j < rest.len() && rest[j] == x;
        if tabs.last() != tab {
            assert(rest.push(tabs.last())[j] == x);
        }
    }
}

impl App {
    /// The freshly opened chat window: an empty input, two sample messages
    /// from Bob and Alice, tabs 1 and 2 with tab 1 active, and a request to
    /// focus the input. Both `sent` stamps come from one reading of the
    /// system clock (the Unix epoch when the clock cannot be read): Bob's is
    /// the reading itself, Alice's two minutes later.
    pub fn new(overlay: bool) -> (r: (App, Action))
        ensures
            r.0.input@ == Seq::<char>::empty(),
            r.0.items@.len() == 2,
            -377705023201 <= r.0.items@[0].sent <= 253402207200,
            r.0.items@[1].sent == r.0.items@[0].sent + 120,
            r.0.items@[0].user.name@ == "Bob"@,
            r.0.items@[0].user.color == (Rgb { r: 230, g: 100, b: 60 }),
            r.0.items@[0].content@ == "This is **awesome**!"@,
            r.0.items@[1].user.name@ == "Alice"@,
            r.0.items@[1].user.color == (Rgb { r: 50, g: 140, b: 255 }),
            r.0.items@[1].content@
                == "_Twitch_ chat with [Markdown](https://daringfireball.net/projects/markdown/), yeah"@,
            r.0.tabs@ == seq![1u64, 2u64],
            r.0.active_tab == Some(1u64),
            r.0.overlay == overlay,
            selection_live(r.0),
            r.1 is FocusInput,
    {
        let sent: i64 = match now_second() {
            Some(s) => s,
            None => 0,
        };
        let mut items: Vec<TwitchMessage> = Vec::new();
        items.push(
            TwitchMessage {
                sent,
                user: TwitchUser { name: "Bob".to_owned(), color: Rgb { r: 230, g: 100, b: 60 } },
                content: "This is **awesome**!".to_owned(),
            },
        );
        let alice_sent = sent + 120;
        items.push(
            TwitchMessage {
                sent: alice_sent,
                user: TwitchUser {
                    name: "Alice".to_owned(),
                    color: Rgb { r: 50, g: 140, b: 255 },
                },
                content: "_Twitch_ chat with [Markdown](https://daringfireball.net/projects/markdown/), yeah".to_owned(),
            },
        );
        let mut tabs: Vec<u64> = Vec::new();
        tabs.push(1);
        tabs.push(2);
        proof {
            assert(tabs@ =~= seq![1u64, 2u64]);
        }
        let app = App { input: String::new(), items, tabs, active_tab: Some(1), overlay };
        (app, Action::FocusInput)
    }

    /// Applies one user event to the state and says which effect the shell
    /// must perform. Submitting blank text is a no-op; adding a tab appends
    /// an identifier one above the largest open one; closing the active tab
    /// clears the selection. A selection on a live tab stays on a live tab,
    /// as long as tab switches target live tabs.
    pub fn update(&mut self, message: Message) -> (action: Action)
        requires
            message is AddTab ==> max_tab_id(old(self).tabs@) < u64::MAX,
        ensures
            update_spec(*old(self), *final(self), message, action),
            selection_live(*old(self)) && (message matches Message::SwitchTab(t)
                ==> old(self).tabs@.contains(t)) ==> selection_live(*final(self)),
    {
        match message {
            Message::Input(input) => {
                self.input = input;
                Action::Nothing
            },
            Message::Send(message) => {
                if is_blank(message.as_str()) {
                    return Action::Nothing;
                }
                let sent: i64 = match now_second() {
                    Some(s) => s,
                    None => 0,
                };
                self.items.push(
                    TwitchMessage {
                        sent,
                        user: TwitchUser {
                            name: "Me".to_owned(),
                            color: Rgb { r: 255, g: 255, b: 255 },
                        },
                        content: message,
                    },
                );
                self.input = String::new();
                proof {
                    assert(self.items@.drop_last() =~= old(self).items@);
                }
                Action::SnapChatToEnd
            },
            Message::LinkClicked(url) => Action::OpenUrl(url),
            Message::OpenSettings => Action::SettingsRequested,
            Message::OpenAccount => Action::AccountRequested,
            Message::OpenEmojiPanel => Action::EmojiPanelRequested,
            Message::SwitchTab(tab) => {
                self.active_tab = Some(tab);
                Action::Nothing
            },
            Message::AddTab => {
                let ghost t = self.tabs@;
                let mut m: u64 = 0;
                let mut i: usize = 0;
                while i < self.tabs.len()
                    invariant
                        self.tabs@ == t,
                        0 <= i <= t.len(),
                        m as int == max_tab_id(t.subrange(0, i as int)),
                    decreases t.len() - i,
                {
                    let v = self.tabs[i];
                    proof {
                        assert(t.subrange(0, i as int + 1).drop_last() =~= t.subrange(0, i as int));
                        assert(t.subrange(0, i as int + 1).last() == t[i as int]);
                    }
                    if v > m {
                        m = v;
                    }
                    i = i + 1;
                }
                proof {
                    assert(t.subrange(0, t.len() as int) =~= t);
                }
                self.tabs.push(m + 1);
                proof {
                    match self.active_tab {
                        Some(a) => {
                            if old(self).tabs@.contains(a) {
                                let k = choose|k: int|
                                    0 <= k < old(self).tabs@.len() && old(self).tabs@[k] == a;
                                assert(self.tabs@[k] == a);
                                assert(self.tabs@.contains(a));
                            }
                        },
                        None => {},
                    }
                }
                Action::SnapTabBarToEnd
            },
            Message::CloseTab(tab) => {
                let ghost t = self.tabs@;
                let mut kept: Vec<u64> = Vec::new();
                let mut i: usize = 0;
                while i < self.tabs.len()
                    invariant
                        self.tabs@ == t,
                        0 <= i <= t.len(),
                        kept@ == without_tab(t.subrange(0, i as int), tab),
                    decreases t.len() - i,
                {
                    let v = self.tabs[i];
                    proof {
                        assert(t.subrange(0, i as int + 1).drop_last() =~= t.subrange(0, i as int));
                        assert(t.subrange(0, i as int + 1).last() == t[i as int]);
                    }
                    if v != tab {
                        kept.push(v);
                    }
                    i = i + 1;
                }
                proof {
                    assert(t.subrange(0, t.len() as int) =~= t);
                }
                self.tabs = kept;
                let clear = match self.active_tab {
                    Some(a) => a == tab,
                    None => false,
                };
                if clear {
                    self.active_tab = None;
                }
                proof {
                    match self.active_tab {
                        Some(a) => {
                            if old(self).tabs@.contains(a) && a != tab {
                                lemma_without_tab_contains(old(self).tabs@, tab, a);
                            }
                        },
                        None => {},
                    }
                }
                Action::Nothing
            },
        }
    }
}

} // verus!
