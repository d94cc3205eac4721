//! The line protocol spoken with the VPN core: commands go out as `verb<TAB>argument`, status
//! lines come in as `state<TAB>endpoint<TAB>user<TAB>ip<TAB>message`.
use crate::text::{
    fields, is_line_char, join, law_c_string, law_join_split, lemma_fields_concat,
    lemma_fields_count, lemma_fields_single, lemma_one_line_clean, lemma_one_line_concat,
    lemma_one_line_count, one_line, same, split, strip,
};
use vstd::prelude::*;
use vstd::utf8::{
    decode_utf8, encode_utf8, encode_utf8_decode_utf8, encode_utf8_valid_utf8, valid_utf8,
};

verus! {

// ---------- outgoing ----------

/// A request to the core.
#[derive(Debug, PartialEq, Eq)]
pub enum Command {
    /// Tear everything down and report `exited`.
    Quit,
    /// End the session at the gateway and forget it.
    Logout,
    /// Use this portal address from now on.
    Setup(String),
    Connect,
    Disconnect,
}

impl Command {
    /// The word that the line starts with.
    pub open spec fn verb(self) -> Seq<char> {
        match self {
            Command::Quit => "quit"@,
            Command::Logout => "logout"@,
            Command::Setup(_) => "setup"@,
            Command::Connect => "connect"@,
            Command::Disconnect => "disconnect"@,
        }
    }

    /// What follows the tab.
    pub open spec fn argument(self) -> Seq<char> {
        match self {
            Command::Setup(address) => address@,
            _ => ""@,
        }
    }

    /// The line to hand to the core.
    pub fn line(&self) -> (line: String)
        ensures
            line@ == command_line(self.verb(), self.argument()),
    {
        match self {
            Command::Quit => send_line("quit", ""),
            Command::Logout => send_line("logout", ""),
            Command::Setup(address) => send_line("setup", address.as_str()),
            Command::Connect => send_line("connect", ""),
            Command::Disconnect => send_line("disconnect", ""),
        }
    }
}

/// A verb and an argument with a tab between them, without any NUL or line feed.
pub open spec fn command_line(verb: Seq<char>, argument: Seq<char>) -> Seq<char> {
    one_line(verb.push('\t') + argument)
}

/// Frames a verb and an argument as one line.
pub fn send_line(verb: &str, argument: &str) -> (line: String)
    ensures
        line@ == command_line(verb@, argument@),
{
    let mut line: String = verb.to_owned();
    line.push('\t');
    line.append(argument);
    strip(line.as_str())
}

/// A framed command is a single line without NUL, whatever the verb and the argument: its bytes
/// always make a C string.
pub proof fn law_command_is_one_line(verb: Seq<char>, argument: Seq<char>)
    ensures
        !command_line(verb, argument).contains('\0'),
        !command_line(verb, argument).contains('\n'),
        !encode_utf8(command_line(verb, argument)).contains(0),
{
    lemma_one_line_chars(verb.push('\t') + argument);
    law_c_string(command_line(verb, argument));
}

proof fn lemma_one_line_chars(s: Seq<char>)
    ensures
        forall|i: int| 0 <= i < one_line(s).len() ==> is_line_char(#[trigger] one_line(s)[i]),
    decreases s.len(),
{
    reveal(Seq::filter);
    if s.len() > 0 {
        lemma_one_line_chars(s.drop_last());
    }
}

proof fn lemma_one_line_keeps(s: Seq<char>)
    requires
        forall|i: int| 0 <= i < s.len() ==> is_line_char(#[trigger] s[i]),
    ensures
        one_line(s) == s,
    decreases s.len(),
{
    reveal(Seq::filter);
    if s.len() > 0 {
        lemma_one_line_keeps(s.drop_last());
        assert(s.drop_last().push(s.last()) == s);
    }
}

/// Verb and argument can be read back from the line: the verb stands before the first tab and
/// the argument after it, each as it was but for NUL and line feed.
pub proof fn law_command_read_back(verb: Seq<char>, argument: Seq<char>)
    requires
        !verb.contains('\t'),
    ensures
        ({
            let line = command_line(verb, argument);
            let tab = one_line(verb).len() as int;
            &&& tab < line.len()
            &&& line.take(tab) == one_line(verb)
            &&& !line.take(tab).contains('\t')
            &&& line[tab] == '\t'
            &&& line.skip(tab + 1) == one_line(argument)
        }),
{
    let keep = |c: char| is_line_char(c);
    let line = command_line(verb, argument);
    let head = one_line(verb);
    Seq::filter_distributes_over_add(verb.push('\t'), argument, keep);
    assert(one_line(verb.push('\t')) == head.push('\t')) by {
        reveal(Seq::filter);
        assert(verb.push('\t').drop_last() == verb);
    }
    assert(line == head.push('\t') + one_line(argument));
    assert(line.take(head.len() as int) == head);
    assert(line.skip(head.len() as int + 1) == one_line(argument));
    lemma_one_line_within(verb);
    assert forall|i: int| 0 <= i < head.len() implies head[i] != '\t' by {
        assert(verb.contains(head[i]));
    }
}

proof fn lemma_one_line_within(s: Seq<char>)
    ensures
        forall|i: int| 0 <= i < one_line(s).len() ==> s.contains(#[trigger] one_line(s)[i]),
    decreases s.len(),
{
    reveal(Seq::filter);
    if s.len() > 0 {
        let head = s.drop_last();
        lemma_one_line_within(head);
        assert forall|i: int| 0 <= i < one_line(s).len() implies s.contains(
            #[trigger] one_line(s)[i],
        ) by {
            if i < one_line(head).len() {
                assert(one_line(s)[i] == one_line(head)[i]);
                assert(head.contains(one_line(head)[i]));
                let j = choose|j: int| 0 <= j < head.len() && head[j] == one_line(head)[i];
                assert(s[j] == one_line(s)[i]);
            } else {
                assert(s[s.len() - 1] == one_line(s)[i]);
            }
        }
    }
}

/// The verb of every command is a plain word, so its line starts with it.
proof fn lemma_verb_is_plain(c: Command)
    ensures
        !c.verb().contains('\t'),
        one_line(c.verb()) == c.verb(),
{
    reveal_strlit("quit");
    reveal_strlit("logout");
    reveal_strlit("setup");
    reveal_strlit("connect");
    reveal_strlit("disconnect");
    lemma_one_line_keeps(c.verb());
}

/// The core can tell commands apart: equal lines mean equal verbs and, but for NUL and line
/// feed, equal arguments.
pub proof fn law_commands_distinct(a: Command, b: Command)
    requires
        command_line(a.verb(), a.argument()) == command_line(b.verb(), b.argument()),
    ensures
        a.verb() == b.verb(),
        one_line(a.argument()) == one_line(b.argument()),
{
    lemma_verb_is_plain(a);
    lemma_verb_is_plain(b);
    law_command_read_back(a.verb(), a.argument());
    law_command_read_back(b.verb(), b.argument());
    let line = command_line(a.verb(), a.argument());
    let (m, n) = (a.verb().len() as int, b.verb().len() as int);
    if m < n {
        assert(line.take(n)[m] == '\t');
        assert(line.take(n).contains('\t'));
    } else if n < m {
        assert(line.take(m)[n] == '\t');
        assert(line.take(m).contains('\t'));
    }
}

// ---------- incoming ----------

/// What the core last reported.
#[derive(Debug, PartialEq, Eq)]
pub struct St {
    /// `starting`, `setup`, `login`, `connecting`, `on` or `off`.
    pub state: String,
    /// The portal address.
    pub endpoint: String,
    /// The account, empty before the first login.
    pub user: String,
    /// The address inside the tunnel.
    pub ip: String,
    /// An error or a progress note.
    pub msg: String,
}

/// The texts of a status.
pub struct StView {
    pub state: Seq<char>,
    pub endpoint: Seq<char>,
    pub user: Seq<char>,
    pub ip: Seq<char>,
    pub msg: Seq<char>,
}

impl View for St {
    type V = StView;

    open spec fn view(&self) -> StView {
        StView {
            state: self.state@,
            endpoint: self.endpoint@,
            user: self.user@,
            ip: self.ip@,
            msg: self.msg@,
        }
    }
}

impl Clone for St {
    fn clone(&self) -> (st: St)
        ensures
            st@ == self@,
    {
        St {
            state: self.state.clone(),
            endpoint: self.endpoint.clone(),
            user: self.user.clone(),
            ip: self.ip.clone(),
            msg: self.msg.clone(),
        }
    }
}

impl Default for St {
    /// A status with nothing in it.
    fn default() -> (st: St)
        ensures
            st.state@ == ""@,
            st.endpoint@ == ""@,
            st.user@ == ""@,
            st.ip@ == ""@,
            st.msg@ == ""@,
    {
        proof {
            reveal_strlit("");
        }
        St {
            state: String::new(),
            endpoint: String::new(),
            user: String::new(),
            ip: String::new(),
            msg: String::new(),
        }
    }
}

impl St {
    /// The status before the core has said anything.
    pub fn starting() -> (st: St)
        ensures
            st@ == (StView {
                state: "starting"@,
                endpoint: ""@,
                user: ""@,
                ip: ""@,
                msg: ""@,
            }),
    {
        let mut st: St = St::default();
        st.state = "starting".to_owned();
        st
    }
}

/// What a line from the core means.
#[derive(Debug, PartialEq, Eq)]
pub enum Event {
    /// Too few fields.
    Ignored,
    /// The core is done; nothing follows.
    Exited,
    /// A new status.
    Status(St),
}

/// What a line from the core means, over texts.
pub enum EventView {
    Ignored,
    Exited,
    Status(StView),
}

impl View for Event {
    type V = EventView;

    open spec fn view(&self) -> EventView {
        match self {
            Event::Ignored => EventView::Ignored,
            Event::Exited => EventView::Exited,
            Event::Status(st) => EventView::Status(st@),
        }
    }
}

/// The meaning of a line: its first five tab-separated fields, unless there are fewer or the
/// first is `exited`. Further fields are ignored.
pub open spec fn meaning(line: Seq<char>) -> EventView {
    let f = fields(line, '\t');
    if f.len() < 5 {
        EventView::Ignored
    } else if f[0] == "exited"@ {
        EventView::Exited
    } else {
        EventView::Status(
            StView { state: f[0], endpoint: f[1], user: f[2], ip: f[3], msg: f[4] },
        )
    }
}

/// Reads one line from the core.
pub fn parse_line(line: &str) -> (event: Event)
    ensures
        event@ == meaning(line@),
{
    let f: Vec<String> = split(line, '\t');
    assert(f.deep_view() == fields(line@, '\t'));
    if f.len() < 5 {
        return Event::Ignored;
    }
    assert(forall|i: int| 0 <= i < f@.len() ==> f.deep_view()[i] == (#[trigger] f@[i])@);
    if same(&f[0], "exited") {
        return Event::Exited;
    }
    Event::Status(
        St {
            state: f[0].clone(),
            endpoint: f[1].clone(),
            user: f[2].clone(),
            ip: f[3].clone(),
            msg: f[4].clone(),
        },
    )
}

/// The text that `String::from_utf8_lossy` reads from bytes, with U+FFFD for what is no UTF-8.
pub uninterp spec fn lossy_text(bytes: Seq<u8>) -> Seq<char>;

/// `String::from_utf8_lossy`: the text of bytes. Of valid UTF-8 it is the text encoded there; of
/// other bytes the result is only named, as `lossy_text`.
#[verifier::external_body]
fn decode_lossy(bytes: &[u8]) -> (text: String)
    ensures
        text@ == lossy_text(bytes@),
        valid_utf8(bytes@) ==> text@ == decode_utf8(bytes@),
{
    String::from_utf8_lossy(bytes).into_owned()
}

/// What the reader of the core's lines does next.
#[derive(Clone, Copy, Debug, PartialEq, Eq, Structural)]
pub enum Reaction {
    /// Read the next line.
    Skip,
    /// Draw the new status, then read the next line.
    Repaint,
    /// Read no more.
    Stop,
}

/// All that the core has told so far.
#[derive(Debug, PartialEq, Eq)]
pub struct Session {
    pub st: St,
    pub exited: bool,
}

/// All that the core has told so far, over texts.
pub struct SessionView {
    pub st: StView,
    pub exited: bool,
}

impl View for Session {
    type V = SessionView;

    open spec fn view(&self) -> SessionView {
        SessionView { st: self.st@, exited: self.exited }
    }
}

/// The session after one more line.
pub open spec fn after_line(s: SessionView, line: Seq<char>) -> SessionView {
    match meaning(line) {
        EventView::Ignored => s,
        EventView::Exited => SessionView { exited: true, ..s },
        EventView::Status(st) => SessionView { st, ..s },
    }
}

/// What the reader does after a line.
pub open spec fn reaction(line: Seq<char>) -> Reaction {
    match meaning(line) {
        EventView::Ignored => Reaction::Skip,
        EventView::Exited => Reaction::Stop,
        EventView::Status(_) => Reaction::Repaint,
    }
}

impl Session {
    /// A session in which the core has said nothing yet.
    pub fn new() -> (s: Session)
        ensures
            s@ == (SessionView {
                st: StView {
                    state: "starting"@,
                    endpoint: ""@,
                    user: ""@,
                    ip: ""@,
                    msg: ""@,
                },
                exited: false,
            }),
    {
        Session { st: St::starting(), exited: false }
    }

    /// Takes in one line of text.
    pub fn take_line(&mut self, line: &str) -> (r: Reaction)
        ensures
            final(self)@ == after_line(old(self)@, line@),
            r == reaction(line@),
    {
        match parse_line(line) {
            Event::Ignored => Reaction::Skip,
            Event::Exited => {
                self.exited = true;
                Reaction::Stop
            },
            Event::Status(st) => {
                self.st = st;
                Reaction::Repaint
            },
        }
    }

    /// Takes in one line as the core sends it: bytes that should be UTF-8.
    pub fn receive(&mut self, bytes: &[u8]) -> (r: Reaction)
        ensures
            final(self)@ == after_line(old(self)@, lossy_text(bytes@)),
            r == reaction(lossy_text(bytes@)),
            valid_utf8(bytes@) ==> final(self)@ == after_line(old(self)@, decode_utf8(bytes@)) && r
                == reaction(decode_utf8(bytes@)),
    {
        let line: String = decode_lossy(bytes);
        self.take_line(line.as_str())
    }
}

/// A status reaches the popup as it was written: five or more fields without tabs, joined by
/// tabs and sent as UTF-8, are read as the status of the first five.
pub proof fn law_status_round_trip(written: Seq<Seq<char>>)
    requires
        written.len() >= 5,
        forall|i: int| 0 <= i < written.len() ==> !(#[trigger] written[i]).contains('\t'),
        written[0] != "exited"@,
    ensures
        valid_utf8(encode_utf8(join(written, '\t'))),
        meaning(decode_utf8(encode_utf8(join(written, '\t')))) == EventView::Status(
            StView {
                state: written[0],
                endpoint: written[1],
                user: written[2],
                ip: written[3],
                msg: written[4],
            },
        ),
{
    law_join_split(written, '\t');
    encode_utf8_valid_utf8(join(written, '\t'));
    encode_utf8_decode_utf8(join(written, '\t'));
}

/// The session after a run of lines, of which none is read after `exited`.
pub open spec fn after_lines(s: SessionView, lines: Seq<Seq<char>>) -> SessionView
    decreases lines.len(),
{
    if lines.len() == 0 {
        s
    } else {
        let before = after_lines(s, lines.drop_last());
        if before.exited {
            before
        } else {
            after_line(before, lines.last())
        }
    }
}

/// The core counts as exited from the first line that says so, and not before.
pub proof fn law_exited(s: SessionView, lines: Seq<Seq<char>>)
    ensures
        after_lines(s, lines).exited <==> s.exited || exists|i: int|
            0 <= i < lines.len() && meaning(#[trigger] lines[i]) is Exited,
    decreases lines.len(),
{
    if lines.len() > 0 {
        let head = lines.drop_last();
        law_exited(s, head);
        if after_lines(s, head).exited && !s.exited {
            let i = choose|i: int| 0 <= i < head.len() && meaning(#[trigger] head[i]) is Exited;
            assert(lines[i] == head[i]);
        }
        if exists|i: int| 0 <= i < lines.len() && meaning(#[trigger] lines[i]) is Exited {
            let i = choose|i: int| 0 <= i < lines.len() && meaning(#[trigger] lines[i]) is Exited;
            if i < head.len() {
                assert(head[i] == lines[i]);
            }
        }
    }
}

/// The popup shows the latest status: once a status line was read, the session holds it until
/// another status line comes, whatever malformed lines or `exited` follow.
pub proof fn law_latest_status(s: SessionView, lines: Seq<Seq<char>>, i: int)
    requires
        !s.exited,
        0 <= i < lines.len(),
        meaning(lines[i]) is Status,
        forall|j: int| 0 <= j < i ==> !(meaning(#[trigger] lines[j]) is Exited),
        forall|j: int| i < j < lines.len() ==> !(meaning(#[trigger] lines[j]) is Status),
    ensures
        after_lines(s, lines).st == meaning(lines[i])->Status_0,
    decreases lines.len(),
{
    let head = lines.drop_last();
    if i == lines.len() - 1 {
        law_exited(s, head);
        assert forall|j: int| 0 <= j < head.len() implies !(meaning(#[trigger] head[j]) is Exited) by {
            assert(head[j] == lines[j]);
        }
    } else {
        assert forall|j: int| 0 <= j < i implies !(meaning(#[trigger] head[j]) is Exited) by {
            assert(head[j] == lines[j]);
        }
        assert forall|j: int| i < j < head.len() implies !(meaning(#[trigger] head[j]) is Status) by {
            assert(head[j] == lines[j]);
        }
        law_latest_status(s, head, i);
        assert(!(meaning(lines[lines.len() - 1]) is Status));
    }
}

// ---------- what the functions give, for every input ----------

/// A verb and an argument without NUL and line feed reach the core unchanged, with one tab
/// between them.
pub proof fn law_clean_command_is_unchanged(verb: &str, argument: &str, line: String)
    requires
        call_ensures(send_line, (verb, argument), line),
        !verb@.contains('\0') && !verb@.contains('\n'),
        !argument@.contains('\0') && !argument@.contains('\n'),
    ensures
        line@ == verb@.push('\t') + argument@,
{
    let whole = verb@.push('\t') + argument@;
    assert forall|i: int| 0 <= i < whole.len() implies whole[i] != '\0' && whole[i] != '\n' by {
        if i < verb@.len() {
            assert(verb@.contains(verb@[i]));
        } else if i > verb@.len() {
            assert(argument@.contains(argument@[i - verb@.len() - 1]));
        }
    }
    lemma_one_line_clean(whole);
}

/// The line holds every character other than NUL and line feed as often as verb, tab and argument
/// together, and those two not at all.
pub proof fn law_command_counts(verb: &str, argument: &str, line: String, c: char)
    requires
        call_ensures(send_line, (verb, argument), line),
    ensures
        line@.to_multiset().count(c) == (if c == '\0' || c == '\n' {
            0
        } else {
            (verb@.push('\t') + argument@).to_multiset().count(c)
        }),
{
    lemma_one_line_count(verb@.push('\t') + argument@, c);
}

/// Of any verb and any argument the line is what stripping leaves of each, with a tab between.
pub proof fn law_command_parts(
    verb: &str,
    argument: &str,
    line: String,
    of_verb: String,
    of_argument: String,
)
    requires
        call_ensures(send_line, (verb, argument), line),
        call_ensures(strip, (verb,), of_verb),
        call_ensures(strip, (argument,), of_argument),
    ensures
        line@ == of_verb@.push('\t') + of_argument@,
{
    lemma_command_parts(verb@, argument@);
}

proof fn lemma_command_parts(verb: Seq<char>, argument: Seq<char>)
    ensures
        command_line(verb, argument) == one_line(verb).push('\t') + one_line(argument),
{
    let tab = seq!['\t'];
    lemma_one_line_concat(verb.push('\t'), argument);
    lemma_one_line_concat(verb, tab);
    assert(verb + tab == verb.push('\t'));
    assert(!tab.contains('\0') && !tab.contains('\n'));
    lemma_one_line_clean(tab);
    assert(one_line(verb) + tab == one_line(verb).push('\t'));
}

/// The line of each command is its word and a tab.
pub proof fn law_command_words(c: Command, line: String)
    requires
        call_ensures(Command::line, (&c,), line),
    ensures
        c is Quit ==> line@ == "quit\t"@,
        c is Logout ==> line@ == "logout\t"@,
        c is Connect ==> line@ == "connect\t"@,
        c is Disconnect ==> line@ == "disconnect\t"@,
        c is Setup ==> line@.len() >= 6 && line@.take(6) == "setup\t"@,
{
    lemma_verb_is_plain(c);
    lemma_command_parts(c.verb(), c.argument());
    reveal_strlit("");
    reveal_strlit("quit");
    reveal_strlit("logout");
    reveal_strlit("setup");
    reveal_strlit("connect");
    reveal_strlit("disconnect");
    reveal_strlit("quit\t");
    reveal_strlit("logout\t");
    reveal_strlit("setup\t");
    reveal_strlit("connect\t");
    reveal_strlit("disconnect\t");
    assert(!""@.contains('\0') && !""@.contains('\n'));
    lemma_one_line_clean(""@);
    if c is Setup {
        assert(line@.take(6) == "setup\t"@);
    } else {
        assert(line@ == c.verb().push('\t'));
    }
}

/// After the word and the tab of a setup comes the address as it was typed, whatever it holds and
/// however long it is; only NUL and line feed are taken out.
pub proof fn law_setup_sends_address(typed: String, text: &str, line: String, stripped: String)
    requires
        call_ensures(Command::line, (&Command::Setup(typed),), line),
        text@ == typed@,
        call_ensures(strip, (text,), stripped),
    ensures
        line@ == "setup\t"@ + stripped@,
        !typed@.contains('\0') && !typed@.contains('\n') ==> line@ == "setup\t"@ + typed@,
{
    let c = Command::Setup(typed);
    lemma_verb_is_plain(c);
    lemma_command_parts(c.verb(), c.argument());
    reveal_strlit("setup");
    reveal_strlit("setup\t");
    assert("setup"@.push('\t') == "setup\t"@);
    if !typed@.contains('\0') && !typed@.contains('\n') {
        lemma_one_line_clean(typed@);
    }
}

proof fn lemma_five_fields(
    a: Seq<char>,
    b: Seq<char>,
    c: Seq<char>,
    d: Seq<char>,
    e: Seq<char>,
)
    requires
        !a.contains('\t') && !b.contains('\t') && !c.contains('\t') && !d.contains('\t'),
    ensures
        fields(a.push('\t') + (b.push('\t') + (c.push('\t') + (d.push('\t') + e))), '\t') == seq![
            a,
            b,
            c,
            d,
        ] + fields(e, '\t'),
{
    lemma_fields_single(a, '\t');
    lemma_fields_single(b, '\t');
    lemma_fields_single(c, '\t');
    lemma_fields_single(d, '\t');
    lemma_fields_concat(d, e, '\t');
    lemma_fields_concat(c, d.push('\t') + e, '\t');
    lemma_fields_concat(b, c.push('\t') + (d.push('\t') + e), '\t');
    lemma_fields_concat(a, b.push('\t') + (c.push('\t') + (d.push('\t') + e)), '\t');
    assert(seq![a] + (seq![b] + (seq![c] + (seq![d] + fields(e, '\t')))) == seq![a, b, c, d]
        + fields(e, '\t'));
}

/// The first piece of a tail that is empty or starts with a tab, put behind a tab-free text.
proof fn lemma_first_of_tail(e: Seq<char>, tail: Seq<char>)
    requires
        !e.contains('\t'),
        tail.len() == 0 || tail[0] == '\t',
    ensures
        fields(e + tail, '\t').len() >= 1,
        fields(e + tail, '\t')[0] == e,
{
    lemma_fields_single(e, '\t');
    if tail.len() == 0 {
        assert(e + tail == e);
    } else {
        let rest = tail.drop_first();
        assert(e + tail == e.push('\t') + rest);
        lemma_fields_concat(e, rest, '\t');
    }
}

/// Five texts without tabs, joined by tabs, are read as the status of these five, whatever they
/// hold and whatever comes behind a further tab: the session holds it, the popup is drawn anew,
/// and the core does not count as exited for it. A first text `exited` is the one exception.
pub proof fn law_status_line_is_shown(
    s: &mut Session,
    line: &str,
    r: Reaction,
    state: Seq<char>,
    endpoint: Seq<char>,
    user: Seq<char>,
    ip: Seq<char>,
    msg: Seq<char>,
    tail: Seq<char>,
)
    requires
        call_ensures(Session::take_line, (s, line), r),
        line@ == state.push('\t') + (endpoint.push('\t') + (user.push('\t') + (ip.push('\t') + (
        msg + tail)))),
        !state.contains('\t') && !endpoint.contains('\t') && !user.contains('\t'),
        !ip.contains('\t') && !msg.contains('\t'),
        tail.len() == 0 || tail[0] == '\t',
        state != "exited"@,
    ensures
        r is Repaint,
        final(s).st.state@ == state,
        final(s).st.endpoint@ == endpoint,
        final(s).st.user@ == user,
        final(s).st.ip@ == ip,
        final(s).st.msg@ == msg,
        final(s).exited == old(s).exited,
{
    lemma_five_fields(state, endpoint, user, ip, msg + tail);
    lemma_first_of_tail(msg, tail);
    assert(meaning(line@) == EventView::Status(StView { state, endpoint, user, ip, msg }));
    assert(final(s)@.st == StView { state, endpoint, user, ip, msg });
    assert(final(s)@.st == final(s).st@);
}

/// A line of five or more fields of which the first is `exited` stops the reader: the core counts
/// as exited, and the status stays.
pub proof fn law_exited_line_stops(
    s: &mut Session,
    line: &str,
    r: Reaction,
    a: Seq<char>,
    b: Seq<char>,
    c: Seq<char>,
    rest: Seq<char>,
)
    requires
        call_ensures(Session::take_line, (s, line), r),
        line@ == "exited"@.push('\t') + (a.push('\t') + (b.push('\t') + (c.push('\t') + rest))),
        !a.contains('\t') && !b.contains('\t') && !c.contains('\t'),
    ensures
        r is Stop,
        final(s).exited,
        final(s).st@ == old(s).st@,
{
    reveal_strlit("exited");
    lemma_five_fields("exited"@, a, b, c, rest);
    lemma_fields_count(rest, '\t');
    assert(meaning(line@) is Exited);
    assert(final(s)@.exited && final(s)@.st == old(s)@.st);
}

/// For every line: with fewer than four tabs it is passed over and changes nothing; with more it
/// stops the reader if it starts with `exited` and a tab, and has the popup drawn anew if not.
pub proof fn law_reaction_of_every_line(s: &mut Session, line: &str, r: Reaction)
    requires
        call_ensures(Session::take_line, (s, line), r),
    ensures
        ({
            let short = line@.to_multiset().count('\t') < 4;
            let says_exited = line@.len() >= 7 && line@.take(7) == "exited\t"@;
            &&& r is Skip <==> short
            &&& r is Stop <==> !short && says_exited
            &&& r is Repaint <==> !short && !says_exited
            &&& r is Skip ==> final(s)@ == old(s)@
            &&& final(s).exited == (old(s).exited || r is Stop)
            &&& !(r is Repaint) ==> final(s).st@ == old(s).st@
        }),
{
    lemma_fields_count(line@, '\t');
    if line@.to_multiset().count('\t') >= 4 {
        lemma_first_field(line@);
    }
    assert(final(s)@.exited == final(s).exited && final(s)@.st == final(s).st@);
    assert(old(s)@.exited == old(s).exited && old(s)@.st == old(s).st@);
}

proof fn lemma_first_field(s: Seq<char>)
    requires
        s.to_multiset().count('\t') >= 1,
    ensures
        fields(s, '\t')[0] == "exited"@ <==> s.len() >= 7 && s.take(7) == "exited\t"@,
{
    reveal_strlit("exited");
    reveal_strlit("exited\t");
    assert("exited"@.push('\t') == "exited\t"@);
    assert(s.contains('\t')) by {
        broadcast use vstd::seq_lib::group_to_multiset_ensures;

        assert(s.to_multiset().contains('\t'));
    }
    let n = s.index_of_first('\t')->0;
    s.index_of_first_ensures('\t');
    let (head, rest) = (s.take(n), s.skip(n + 1));
    assert(s == head.push('\t') + rest);
    assert(!head.contains('\t'));
    lemma_fields_single(head, '\t');
    lemma_fields_concat(head, rest, '\t');
    assert(fields(s, '\t')[0] == head);
    if head == "exited"@ {
        assert(s.take(7) == "exited\t"@);
    }
    if s.len() >= 7 && s.take(7) == "exited\t"@ {
        assert(s.take(7)[6] == '\t');
        assert(s[6] == '\t');
        assert forall|i: int| 0 <= i < 6 implies s[i] != '\t' by {
            assert(s.take(7)[i] == "exited"@[i]);
        }
        assert(n == 6);
        assert(head == "exited"@);
    }
}

/// Reading a line and taking it into the session are one: the event is the status that the
/// session then holds and that is drawn, or the exit, or nothing.
pub proof fn law_event_is_what_is_taken(s: &mut Session, line: &str, r: Reaction, event: Event)
    requires
        call_ensures(Session::take_line, (s, line), r),
        call_ensures(parse_line, (line,), event),
    ensures
        event is Ignored <==> r is Skip,
        event is Exited <==> r is Stop,
        event is Status <==> r is Repaint,
        event matches Event::Status(st) ==> {
            &&& st.state@ == final(s).st.state@
            &&& st.endpoint@ == final(s).st.endpoint@
            &&& st.user@ == final(s).st.user@
            &&& st.ip@ == final(s).st.ip@
            &&& st.msg@ == final(s).st.msg@
        },
{
    assert(event@ == meaning(line@));
    assert(final(s)@.st == final(s).st@);
    if let Event::Status(st) = event {
        assert(event@ == EventView::Status(st@));
    }
}

/// A line that comes as bytes does what its text does: the text that they encode, or for other
/// bytes the one read from them with replacement characters.
pub proof fn law_bytes_do_what_the_text_does(
    s: &mut Session,
    t: &mut Session,
    bytes: &[u8],
    line: &str,
    of_bytes: Reaction,
    of_text: Reaction,
)
    requires
        call_ensures(Session::receive, (s, bytes), of_bytes),
        call_ensures(Session::take_line, (t, line), of_text),
        (*s)@ == (*t)@,
        bytes@ == encode_utf8(line@) || line@ == lossy_text(bytes@),
    ensures
        of_bytes == of_text,
        final(s)@ == final(t)@,
{
    encode_utf8_valid_utf8(line@);
    encode_utf8_decode_utf8(line@);
}

/// Two sessions in the same state that read the same line are in the same state again.
pub proof fn law_taking_lines_is_determined(
    s: &mut Session,
    t: &mut Session,
    line: &str,
    of_s: Reaction,
    of_t: Reaction,
)
    requires
        call_ensures(Session::take_line, (s, line), of_s),
        call_ensures(Session::take_line, (t, line), of_t),
        (*s)@ == (*t)@,
    ensures
        of_s == of_t,
        final(s)@ == final(t)@,
{
}

/// Fields without tabs, joined by tabs: five or more have the popup drawn anew, or stop the reader
/// if the first is `exited`; fewer are passed over.
pub proof fn law_reaction_to_written_fields(written: Seq<Seq<char>>)
    requires
        written.len() >= 1,
        forall|i: int| 0 <= i < written.len() ==> !(#[trigger] written[i]).contains('\t'),
    ensures
        reaction(join(written, '\t')) is Skip <==> written.len() < 5,
        reaction(join(written, '\t')) is Stop <==> written.len() >= 5 && written[0] == "exited"@,
        reaction(join(written, '\t')) is Repaint <==> written.len() >= 5 && written[0]
            != "exited"@,
{
    law_join_split(written, '\t');
}

/// A verb and an argument without NUL and line feed make a line that is the two of them with a
/// tab between.
pub proof fn law_clean_command_line(verb: Seq<char>, argument: Seq<char>)
    requires
        !verb.contains('\0') && !verb.contains('\n'),
        !argument.contains('\0') && !argument.contains('\n'),
    ensures
        command_line(verb, argument) == verb.push('\t') + argument,
{
    lemma_command_parts(verb, argument);
    lemma_one_line_clean(verb);
    lemma_one_line_clean(argument);
}

/// A copy of a status holds the same texts.
pub proof fn law_clone_is_equal(st: St, copy: St)
    requires
        call_ensures(St::clone, (&st,), copy),
    ensures
        copy.state@ == st.state@,
        copy.endpoint@ == st.endpoint@,
        copy.user@ == st.user@,
        copy.ip@ == st.ip@,
        copy.msg@ == st.msg@,
{
    assert(copy@ == st@);
}

} // verus!
