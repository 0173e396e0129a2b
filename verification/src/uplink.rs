//! The text commands that the spacecraft accepts, and what each does to the
//! spacecraft's operational state.
//!
//! A command is a line of words separated by whitespace. The first word is
//! the verb, in any mix of upper and lower case; the second, where the verb
//! takes one, is its argument. Further words are ignored.

use vstd::prelude::*;

verus! {

/// How long, in milliseconds, an injected fault is held before it is cleared.
pub const FAULT_HOLD_MS: u64 = 100;

/// How long, in milliseconds, the spacecraft settles after a fault is cleared.
pub const RECOVERY_SETTLE_MS: u64 = 10;

/// Whether `c` is white space: one of the 25 characters with the Unicode
/// property of that name.
pub open spec fn is_space(c: char) -> bool {
    let code = c as u32;
    ||| 0x09 <= code <= 0x0D
    ||| code == 0x20
    ||| code == 0x85
    ||| code == 0xA0
    ||| code == 0x1680
    ||| 0x2000 <= code <= 0x200A
    ||| code == 0x2028
    ||| code == 0x2029
    ||| code == 0x202F
    ||| code == 0x205F
    ||| code == 0x3000
}

/// The first position at or after `from` that holds no white space, or the
/// length of `s` if there is none.
pub open spec fn skip_spaces(s: Seq<char>, from: int) -> int
    decreases s.len() - from,
{
    if 0 <= from < s.len() && is_space(s[from]) {
        skip_spaces(s, from + 1)
    } else {
        from
    }
}

/// The first position at or after `from` that holds white space, or the
/// length of `s` if there is none.
pub open spec fn word_end(s: Seq<char>, from: int) -> int
    decreases s.len() - from,
{
    if 0 <= from < s.len() && !is_space(s[from]) {
        word_end(s, from + 1)
    } else {
        from
    }
}

/// The first word of a line, if it has one.
pub open spec fn first_word(s: Seq<char>) -> Option<Seq<char>> {
    let start = skip_spaces(s, 0);
    if start < s.len() {
        Some(s.subrange(start, word_end(s, start)))
    } else {
        None
    }
}

/// The second word of a line, if it has one.
pub open spec fn second_word(s: Seq<char>) -> Option<Seq<char>> {
    let start = skip_spaces(s, word_end(s, skip_spaces(s, 0)));
    if start < s.len() {
        Some(s.subrange(start, word_end(s, start)))
    } else {
        None
    }
}

/// Whether `c` is the upper-case letter `v` or its lower-case form.
pub open spec fn same_letter(c: char, v: char) -> bool {
    c == v || ('A' <= v <= 'Z' && c as u32 == v as u32 + 32)
}

/// Whether `word` spells the upper-case `verb`, in any mix of cases.
pub open spec fn spells(word: Seq<char>, verb: Seq<char>) -> bool {
    word.len() == verb.len() && forall|i: int|
        0 <= i < word.len() ==> same_letter(#[trigger] word[i], verb[i])
}

/// The kind of fault that a command asks to inject.
#[derive(Debug, Clone, PartialEq, Eq)]
pub enum FaultKind {
    Temp,
    Battery,
    Antenna,
    Random,
    /// A kind that is not known, by the name given; a random fault stands
    /// in for it.
    Unrecognized(String),
}

/// A command as read from a line of text.
#[derive(Debug, Clone, PartialEq, Eq)]
pub enum UplinkCommand {
    InjectFault(FaultKind),
    SetMode(String),
    GetStatus,
    Ping,
    Shutdown,
    /// A verb that is not known, as given.
    Unknown(String),
}

/// The mathematical content of a [`FaultKind`].
pub enum FaultKindModel {
    Temp,
    Battery,
    Antenna,
    Random,
    Unrecognized(Seq<char>),
}

/// The mathematical content of an [`UplinkCommand`].
pub enum CommandModel {
    InjectFault(FaultKindModel),
    SetMode(Seq<char>),
    GetStatus,
    Ping,
    Shutdown,
    Unknown(Seq<char>),
}

impl View for FaultKind {
    type V = FaultKindModel;

    open spec fn view(&self) -> FaultKindModel {
        match self {
            FaultKind::Temp => FaultKindModel::Temp,
            FaultKind::Battery => FaultKindModel::Battery,
            FaultKind::Antenna => FaultKindModel::Antenna,
            FaultKind::Random => FaultKindModel::Random,
            FaultKind::Unrecognized(name) => FaultKindModel::Unrecognized(name@),
        }
    }
}

impl View for UplinkCommand {
    type V = CommandModel;

    open spec fn view(&self) -> CommandModel {
        match self {
            UplinkCommand::InjectFault(kind) => CommandModel::InjectFault(kind@),
            UplinkCommand::SetMode(mode) => CommandModel::SetMode(mode@),
            UplinkCommand::GetStatus => CommandModel::GetStatus,
            UplinkCommand::Ping => CommandModel::Ping,
            UplinkCommand::Shutdown => CommandModel::Shutdown,
            UplinkCommand::Unknown(verb) => CommandModel::Unknown(verb@),
        }
    }
}

/// The kind of fault that the argument of an injection names: the four known
/// kinds by their lower-case names, a random fault where no argument is
/// given.
pub open spec fn fault_kind_of(argument: Option<Seq<char>>) -> FaultKindModel {
    match argument {
        None => FaultKindModel::Random,
        Some(name) => if name == "temp"@ {
            FaultKindModel::Temp
        } else if name == "battery"@ {
            FaultKindModel::Battery
        } else if name == "antenna"@ {
            FaultKindModel::Antenna
        } else if name == "random"@ {
            FaultKindModel::Random
        } else {
            FaultKindModel::Unrecognized(name)
        },
    }
}

/// The command that a line of text spells; none if the line is blank.
pub open spec fn parse(line: Seq<char>) -> Option<CommandModel> {
    match first_word(line) {
        None => None,
        Some(verb) => Some(
            if spells(verb, "INJECT_FAULT"@) {
                CommandModel::InjectFault(fault_kind_of(second_word(line)))
            } else if spells(verb, "SET_MODE"@) {
                CommandModel::SetMode(
                    match second_word(line) {
                        Some(mode) => mode,
                        None => "normal"@,
                    },
                )
            } else if spells(verb, "GET_STATUS"@) {
                CommandModel::GetStatus
            } else if spells(verb, "SHUTDOWN"@) {
                CommandModel::Shutdown
            } else if spells(verb, "PING"@) {
                CommandModel::Ping
            } else {
                CommandModel::Unknown(verb)
            },
        ),
    }
}

/// The content of a command that may be absent.
pub open spec fn content(command: Option<UplinkCommand>) -> Option<CommandModel> {
    match command {
        Some(c) => Some(c@),
        None => None,
    }
}

/// Whether `c` is white space.
fn is_whitespace(c: char) -> (r: bool)
    ensures
        r == is_space(c),
{
    let code: u32 = c as u32;
    (0x09 <= code && code <= 0x0D) || code == 0x20 || code == 0x85 || code == 0xA0 || code
        == 0x1680 || (0x2000 <= code && code <= 0x200A) || code == 0x2028 || code == 0x2029
        || code == 0x202F || code == 0x205F || code == 0x3000
}

/// The first position at or after `from` that holds no white space.
fn skip_spaces_from(text: &str, len: usize, from: usize) -> (at: usize)
    requires
        len == text@.len(),
        from <= len,
    ensures
        at == skip_spaces(text@, from as int),
        from <= at <= len,
{
    let mut at: usize = from;
    while at < len && is_whitespace(text.get_char(at))
        invariant
            len == text@.len(),
            from <= at <= len,
            skip_spaces(text@, from as int) == skip_spaces(text@, at as int),
        decreases len - at,
    {
        at += 1;
    }
    at
}

/// The first position at or after `from` that holds white space.
fn word_end_from(text: &str, len: usize, from: usize) -> (at: usize)
    requires
        len == text@.len(),
        from <= len,
    ensures
        at == word_end(text@, from as int),
        from <= at <= len,
{
    let mut at: usize = from;
    while at < len && !is_whitespace(text.get_char(at))
        invariant
            len == text@.len(),
            from <= at <= len,
            word_end(text@, from as int) == word_end(text@, at as int),
        decreases len - at,
    {
        at += 1;
    }
    at
}

/// Whether `word` spells the upper-case `verb`, in any mix of cases.
fn word_spells(word: &str, verb: &str) -> (r: bool)
    ensures
        r == spells(word@, verb@),
{
    let n = word.unicode_len();
    if n != verb.unicode_len() {
        return false;
    }
    let mut i: usize = 0;
    while i < n
        invariant
            n == word@.len(),
            n == verb@.len(),
            i <= n,
            forall|k: int| 0 <= k < i ==> same_letter(#[trigger] word@[k], verb@[k]),
        decreases n - i,
    {
        let c = word.get_char(i);
        let v = verb.get_char(i);
        let same = c == v || ('A' <= v && v <= 'Z' && c as u32 == v as u32 + 32);
        if !same {
            assert(!same_letter(word@[i as int], verb@[i as int]));
            return false;
        }
        i += 1;
    }
    true
}

/// Whether two texts are the same, character by character.
fn same_text(a: &str, b: &str) -> (r: bool)
    ensures
        r == (a@ == b@),
{
    let n = a.unicode_len();
    if n != b.unicode_len() {
        return false;
    }
    let mut i: usize = 0;
    while i < n
        invariant
            n == a@.len(),
            n == b@.len(),
            i <= n,
            forall|k: int| 0 <= k < i ==> a@[k] == b@[k],
        decreases n - i,
    {
        if a.get_char(i) != b.get_char(i) {
            return false;
        }
        i += 1;
    }
    assert(a@ =~= b@);
    true
}

/// The kind of fault that the argument of an injection names.
fn fault_kind(argument: Option<&str>) -> (kind: FaultKind)
    ensures
        kind@ == fault_kind_of(
            match argument {
                Some(name) => Some(name@),
                None => None,
            },
        ),
{
    match argument {
        None => FaultKind::Random,
        Some(name) => {
            if same_text(name, "temp") {
                FaultKind::Temp
            } else if same_text(name, "battery") {
                FaultKind::Battery
            } else if same_text(name, "antenna") {
                FaultKind::Antenna
            } else if same_text(name, "random") {
                FaultKind::Random
            } else {
                FaultKind::Unrecognized(name.to_owned())
            }
        },
    }
}

/// Reads a command from a line of text. A blank line holds none; a line
/// whose first word is no known verb holds an unknown command.
pub fn parse_command(line: &str) -> (command: Option<UplinkCommand>)
    ensures
        content(command) == parse(line@),
        command is None <==> first_word(line@) is None,
{
    let len = line.unicode_len();
    let verb_start = skip_spaces_from(line, len, 0);
    if verb_start >= len {
        return None;
    }
    let verb_end = word_end_from(line, len, verb_start);
    let verb = line.substring_char(verb_start, verb_end);
    let argument_start = skip_spaces_from(line, len, verb_end);
    let argument = if argument_start < len {
        let argument_end = word_end_from(line, len, argument_start);
        Some(line.substring_char(argument_start, argument_end))
    } else {
        None
    };
    let command = if word_spells(verb, "INJECT_FAULT") {
        UplinkCommand::InjectFault(fault_kind(argument))
    } else if word_spells(verb, "SET_MODE") {
        UplinkCommand::SetMode(
            match argument {
                Some(mode) => mode.to_owned(),
                None => "normal".to_owned(),
            },
        )
    } else if word_spells(verb, "GET_STATUS") {
        UplinkCommand::GetStatus
    } else if word_spells(verb, "SHUTDOWN") {
        UplinkCommand::Shutdown
    } else if word_spells(verb, "PING") {
        UplinkCommand::Ping
    } else {
        UplinkCommand::Unknown(verb.to_owned())
    };
    Some(command)
}

/// The spacecraft's operational state.
#[derive(Debug, Clone, PartialEq, Eq)]
pub struct OperationalState {
    pub mode: String,
    pub fault_mode_active: bool,
    pub consecutive_missed_thermal: u32,
    pub safety_alert_active: bool,
    /// Instant of the latest fault injection, in microseconds.
    pub last_fault_injection: u64,
}

/// The mathematical content of an [`OperationalState`].
pub struct StateModel {
    pub mode: Seq<char>,
    pub fault_mode_active: bool,
    pub consecutive_missed_thermal: u32,
    pub safety_alert_active: bool,
    pub last_fault_injection: u64,
}

impl View for OperationalState {
    type V = StateModel;

    open spec fn view(&self) -> StateModel {
        StateModel {
            mode: self.mode@,
            fault_mode_active: self.fault_mode_active,
            consecutive_missed_thermal: self.consecutive_missed_thermal,
            safety_alert_active: self.safety_alert_active,
            last_fault_injection: self.last_fault_injection,
        }
    }
}

/// What the spacecraft answers to a command.
#[derive(Debug, Clone, PartialEq, Eq)]
pub enum UplinkReply {
    /// A fault of the given kind is now active. It is to be held for
    /// [`FAULT_HOLD_MS`] and then cleared.
    FaultInjected(FaultKind),
    /// The mode is now the one that the command named.
    ModeSet,
    Status { mode: String, fault_active: bool, safety_alert: bool },
    Pong,
    /// The spacecraft is to shut down at once.
    Shutdown,
    /// The verb, as given, is not known.
    UnknownCommand(String),
}

/// The mathematical content of an [`UplinkReply`].
pub enum ReplyModel {
    FaultInjected(FaultKindModel),
    ModeSet,
    Status { mode: Seq<char>, fault_active: bool, safety_alert: bool },
    Pong,
    Shutdown,
    UnknownCommand(Seq<char>),
}

impl View for UplinkReply {
    type V = ReplyModel;

    open spec fn view(&self) -> ReplyModel {
        match self {
            UplinkReply::FaultInjected(kind) => ReplyModel::FaultInjected(kind@),
            UplinkReply::ModeSet => ReplyModel::ModeSet,
            UplinkReply::Status { mode, fault_active, safety_alert } => ReplyModel::Status {
                mode: mode@,
                fault_active: *fault_active,
                safety_alert: *safety_alert,
            },
            UplinkReply::Pong => ReplyModel::Pong,
            UplinkReply::Shutdown => ReplyModel::Shutdown,
            UplinkReply::UnknownCommand(verb) => ReplyModel::UnknownCommand(verb@),
        }
    }
}

/// The state after a command: an injection activates the fault mode, a mode
/// change sets the mode, and no other command changes anything.
pub open spec fn state_after(s: StateModel, c: CommandModel) -> StateModel {
    match c {
        CommandModel::InjectFault(_) => StateModel { fault_mode_active: true, ..s },
        CommandModel::SetMode(mode) => StateModel { mode, ..s },
        _ => s,
    }
}

/// The answer to a command in the state `s`.
pub open spec fn reply_to(s: StateModel, c: CommandModel) -> ReplyModel {
    match c {
        CommandModel::InjectFault(kind) => ReplyModel::FaultInjected(kind),
        CommandModel::SetMode(_) => ReplyModel::ModeSet,
        CommandModel::GetStatus => ReplyModel::Status {
            mode: s.mode,
            fault_active: s.fault_mode_active,
            safety_alert: s.safety_alert_active,
        },
        CommandModel::Ping => ReplyModel::Pong,
        CommandModel::Shutdown => ReplyModel::Shutdown,
        CommandModel::Unknown(verb) => ReplyModel::UnknownCommand(verb),
    }
}

impl OperationalState {
    /// The state at start-up, at the instant `now`: normal mode, no fault
    /// active, no alert raised.
    pub fn new(now: u64) -> (s: OperationalState)
        ensures
            s@ == (StateModel {
                mode: "normal"@,
                fault_mode_active: false,
                consecutive_missed_thermal: 0,
                safety_alert_active: false,
                last_fault_injection: now,
            }),
    {
        OperationalState {
            mode: "normal".to_owned(),
            fault_mode_active: false,
            consecutive_missed_thermal: 0,
            safety_alert_active: false,
            last_fault_injection: now,
        }
    }

    /// Carries out a command and gives the answer to it.
    pub fn apply(&mut self, command: UplinkCommand) -> (reply: UplinkReply)
        ensures
            final(self)@ == state_after(old(self)@, command@),
            reply@ == reply_to(old(self)@, command@),
    {
        match command {
            UplinkCommand::InjectFault(kind) => {
                self.fault_mode_active = true;
                UplinkReply::FaultInjected(kind)
            },
            UplinkCommand::SetMode(mode) => {
                self.mode = mode;
                UplinkReply::ModeSet
            },
            UplinkCommand::GetStatus => UplinkReply::Status {
                mode: self.mode.clone(),
                fault_active: self.fault_mode_active,
                safety_alert: self.safety_alert_active,
            },
            UplinkCommand::Ping => UplinkReply::Pong,
            UplinkCommand::Shutdown => UplinkReply::Shutdown,
            UplinkCommand::Unknown(verb) => UplinkReply::UnknownCommand(verb),
        }
    }

    /// Clears the fault mode, once an injected fault has been held.
    pub fn clear_fault(&mut self)
        ensures
            final(self)@ == (StateModel { fault_mode_active: false, ..old(self)@ }),
    {
        self.fault_mode_active = false;
    }
}

/// The receiving end of the command uplink: it owns the operational state
/// and carries out each line of text that arrives.
pub struct CommandReceiver {
    state: OperationalState,
}

impl CommandReceiver {
    /// The operational state.
    pub closed spec fn state(&self) -> StateModel {
        self.state@
    }

    /// A receiver that carries out commands on `state`.
    pub fn new(state: OperationalState) -> (r: CommandReceiver)
        ensures
            r.state() == state@,
    {
        CommandReceiver { state }
    }

    /// Carries out the command that `line` spells and gives the answer to
    /// it. A blank line is no command: nothing changes and nothing is
    /// answered.
    pub fn process_command(&mut self, line: &str) -> (reply: Option<UplinkReply>)
        ensures
            parse(line@) is None ==> reply is None && final(self).state() == old(self).state(),
            parse(line@) matches Some(command) ==> reply is Some && reply->0@ == reply_to(
                old(self).state(),
                command,
            ) && final(self).state() == state_after(old(self).state(), command),
    {
        match parse_command(line) {
            None => None,
            Some(command) => Some(self.state.apply(command)),
        }
    }

    /// Clears the fault mode, once an injected fault has been held.
    pub fn clear_fault(&mut self)
        ensures
            final(self).state() == (StateModel { fault_mode_active: false, ..old(self).state() }),
    {
        self.state.clear_fault();
    }

    /// A copy of the operational state as it stands.
    pub fn snapshot(&self) -> (s: OperationalState)
        ensures
            s@ == self.state(),
    {
        OperationalState {
            mode: self.state.mode.clone(),
            fault_mode_active: self.state.fault_mode_active,
            consecutive_missed_thermal: self.state.consecutive_missed_thermal,
            safety_alert_active: self.state.safety_alert_active,
            last_fault_injection: self.state.last_fault_injection,
        }
    }
}

} // verus!
