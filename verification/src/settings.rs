//! Named, typed settings shared between the front end and the editor.

use crate::wire::{
    unsigned, value_from_i32, value_from_u16, value_integer, value_text, value_to_string,
    value_to_u64,
};
use rmpv::Value;
use vstd::prelude::*;

verus! {

/// One typed setting. A setting keeps the type it was created with.
#[derive(Clone, Copy, Debug, PartialEq, Eq, Structural)]
pub enum Setting {
    Bool(bool),
    U16(u16),
}

impl Setting {
    /// The setting that `number` turns this one into: a boolean becomes true
    /// exactly for a nonzero number, a 16-bit setting keeps the number's low 16
    /// bits.
    pub open spec fn assigned(self, number: u64) -> Setting {
        match self {
            Setting::Bool(_) => Setting::Bool(number != 0),
            Setting::U16(_) => Setting::U16((number % 0x1_0000) as u16),
        }
    }

    /// The number that stands for this setting on the wire: 1 or 0 for a
    /// boolean, the value itself for a 16-bit setting.
    pub open spec fn number(self) -> u64 {
        match self {
            Setting::Bool(value) => if value { 1 } else { 0 },
            Setting::U16(value) => value as u64,
        }
    }

    /// Whether both settings have the same type.
    pub open spec fn same_type(self, other: Setting) -> bool {
        (self is Bool) == (other is Bool)
    }

    /// A boolean setting.
    pub fn new_bool(value: bool) -> (setting: Setting)
        ensures
            setting == Setting::Bool(value),
    {
        Setting::Bool(value)
    }

    /// The value of a boolean setting. To read a setting of the other type
    /// this way is an error of the caller.
    pub fn read_bool(&self) -> (value: bool)
        requires
            self is Bool,
        ensures
            *self == Setting::Bool(value),
    {
        match self {
            Setting::Bool(value) => *value,
            Setting::U16(_) => false,
        }
    }

    /// A 16-bit setting.
    pub fn new_u16(value: u16) -> (setting: Setting)
        ensures
            setting == Setting::U16(value),
    {
        Setting::U16(value)
    }

    /// The value of a 16-bit setting. To read a setting of the other type
    /// this way is an error of the caller.
    pub fn read_u16(&self) -> (value: u16)
        requires
            self is U16,
        ensures
            *self == Setting::U16(value),
    {
        match self {
            Setting::U16(value) => *value,
            Setting::Bool(_) => 0,
        }
    }

    /// Takes a number received from the editor as the new value, keeping the
    /// setting's type.
    pub fn assign(&mut self, number: u64)
        ensures
            *final(self) == old(self).assigned(number),
    {
        match self {
            Setting::Bool(_) => {
                *self = Setting::Bool(number != 0);
            },
            Setting::U16(_) => {
                let low: u64 = number % 0x1_0000;
                *self = Setting::U16(low as u16);
            },
        }
    }

    /// The setting after the editor sent a value for it: a number is assigned,
    /// and anything else leaves the setting as it is.
    pub open spec fn parsed(self, number: Option<u64>) -> Setting {
        match number {
            Some(number) => self.assigned(number),
            None => self,
        }
    }

    /// Takes a value received from the editor as the new value. A value that is
    /// not an unsigned integer leaves the setting as it is.
    pub fn parse(&mut self, value: Value)
        ensures
            *final(self) == old(self).parsed(unsigned(value_integer(value))),
    {
        match value_to_u64(value) {
            Some(number) => {
                self.assign(number);
            },
            None => {},
        }
    }

    /// The value sent to the editor for this setting.
    pub fn unparse(&self) -> (value: Value)
        ensures
            value_integer(value) == Some(self.number() as int),
    {
        match self {
            Setting::Bool(inner) => {
                let number: i32 = if *inner { 1 } else { 0 };
                value_from_i32(number)
            },
            Setting::U16(inner) => value_from_u16(*inner),
        }
    }

    /// The number sent to the editor for this setting.
    pub fn to_number(&self) -> (number: u64)
        ensures
            number == self.number(),
    {
        match self {
            Setting::Bool(value) => if *value { 1 } else { 0 },
            Setting::U16(value) => *value as u64,
        }
    }
}

/// Assigning a setting the number that stands for it changes nothing.
pub proof fn lemma_assign_own_number(setting: Setting)
    ensures
        setting.assigned(setting.number()) == setting,
{
}

/// A setting never changes its type when a number is assigned to it.
pub proof fn lemma_assign_keeps_type(setting: Setting, number: u64)
    ensures
        setting.assigned(number).same_type(setting),
{
}

/// A change that the editor reports leaves the names of the settings as they
/// are, and the type of each.
pub proof fn lemma_notified_keeps_names_and_types(
    settings: Map<Seq<char>, Setting>,
    name: Option<Seq<char>>,
    number: Option<u64>,
)
    ensures
        notified(settings, name, number).dom() == settings.dom(),
        forall|known: Seq<char>| #[trigger]
            settings.contains_key(known) ==> notified(settings, name, number)[known].same_type(
                settings[known],
            ),
{
    assert(notified(settings, name, number).dom() =~= settings.dom());
}

/// The texts of a sequence of strings.
pub open spec fn texts(strings: Seq<String>) -> Seq<Seq<char>> {
    strings.map_values(|string: String| string@)
}

/// The table that gives each name the value at the same place.
pub open spec fn table(names: Seq<Seq<char>>, values: Seq<Setting>) -> Map<Seq<char>, Setting> {
    Map::new(
        |name: Seq<char>| names.contains(name),
        |name: Seq<char>| values[names.index_of(name)],
    )
}

/// Whether a command-line argument is meant for the front end itself.
pub open spec fn is_flag(argument: Seq<char>) -> bool {
    argument == "--log"@ || argument == "--noIdle"@ || argument == "--extraBufferFrames"@
}

/// The command-line arguments that are handed on to the editor: all but the
/// front end's own flags, in the order given.
pub open spec fn forwarded(arguments: Seq<Seq<char>>) -> Seq<Seq<char>> {
    arguments.filter(is_forwarded())
}

/// The test that picks out the arguments left for the editor.
pub open spec fn is_forwarded() -> spec_fn(Seq<char>) -> bool {
    |argument: Seq<char>| !is_flag(argument)
}

/// The table after the editor reported a new value for `name`: a known setting
/// takes a number, and everything else stays as it is.
pub open spec fn notified(
    settings: Map<Seq<char>, Setting>,
    name: Option<Seq<char>>,
    number: Option<u64>,
) -> Map<Seq<char>, Setting> {
    match name {
        Some(name) if settings.contains_key(name) => settings.insert(
            name,
            settings[name].parsed(number),
        ),
        _ => settings,
    }
}

/// The editor's command line for what the front end's command line left over:
/// `--embed`, then the rest without the program's name that leads it.
pub open spec fn editor_command_line(arguments: Seq<Seq<char>>) -> Seq<Seq<char>> {
    if arguments.len() == 0 {
        seq!["--embed"@]
    } else {
        seq!["--embed"@] + arguments.subrange(1, arguments.len() as int)
    }
}

/// The name of the editor variable that mirrors the setting `name`.
pub open spec fn variable_text(name: Seq<char>) -> Seq<char> {
    "g:neovide_"@ + name
}

/// The script that makes the editor report every change of the setting `name`:
/// a function that sends the notification `setting_changed` with the name and
/// the variable's value, and a watcher on the variable that calls it.
pub open spec fn listener_text(name: Seq<char>) -> Seq<char> {
    "function NeovideNotify"@ + name + "Changed(d, k, z)\n"@
        + "  call rpcnotify(1, \"setting_changed\", \""@ + name + "\", g:neovide_"@ + name
        + ")\n"@ + "endfunction\n"@ + "call dictwatcheradd(g:, \"neovide_"@ + name
        + "\", \"NeovideNotify"@ + name + "Changed\")"@
}

/// The text of a string that may be missing.
pub open spec fn text_of(string: Option<String>) -> Option<Seq<char>> {
    match string {
        Some(string) => Some(string@),
        None => None,
    }
}

/// The settings of one run of the front end, and the command line left for the
/// editor.
pub struct Settings {
    neovim_arguments: Vec<String>,
    names: Vec<String>,
    values: Vec<Setting>,
    log_to_file: bool,
}

impl View for Settings {
    type V = Map<Seq<char>, Setting>;

    closed spec fn view(&self) -> Map<Seq<char>, Setting> {
        table(texts(self.names@), self.values@)
    }
}

impl Settings {
    #[verifier::type_invariant]
    spec fn well_formed(self) -> bool {
        &&& self.names.len() == self.values.len()
        &&& texts(self.names@).no_duplicates()
        &&& texts(self.names@).contains("no_idle"@)
        &&& self.values[texts(self.names@).index_of("no_idle"@)] is Bool
        &&& texts(self.names@).contains("extra_buffer_frames"@)
        &&& self.values[texts(self.names@).index_of("extra_buffer_frames"@)] is U16
    }

    /// The names of the settings, in the order in which they are announced to
    /// the editor.
    pub closed spec fn names(&self) -> Seq<Seq<char>> {
        texts(self.names@)
    }

    /// The command line left for the editor.
    pub closed spec fn arguments(&self) -> Seq<Seq<char>> {
        texts(self.neovim_arguments@)
    }

    /// Whether the command line asked for a log file.
    pub closed spec fn logs_to_file(&self) -> bool {
        self.log_to_file
    }

    /// The number of frames drawn unconditionally after a change.
    pub open spec fn buffer_frames(&self) -> nat {
        match self@["extra_buffer_frames"@] {
            Setting::U16(frames) => frames as nat,
            Setting::Bool(_) => 0,
        }
    }

    /// Where `name` stands among the names.
    fn position(&self, name: &str) -> (found: Option<usize>)
        ensures
            self.names.len() == self.values.len(),
            match found {
                Some(at) => {
                    &&& at < self.names.len()
                    &&& texts(self.names@).contains(name@)
                    &&& texts(self.names@).index_of(name@) == at
                },
                None => !texts(self.names@).contains(name@),
            },
    {
        proof {
            use_type_invariant(self);
        }
        let key = name.to_owned();
        let mut at: usize = 0;
        while at < self.names.len()
            invariant
                at <= self.names.len(),
                key@ == name@,
                texts(self.names@).no_duplicates(),
                self.names.len() == self.values.len(),
                forall|before: int| 0 <= before < at ==> texts(self.names@)[before] != name@,
            decreases self.names.len() - at,
        {
            if self.names[at] == key {
                proof {
                    let listed = texts(self.names@);
                    assert(listed[at as int] == name@);
                    assert(listed.contains(name@));
                }
                return Some(at);
            }
            at += 1;
        }
        None
    }

    /// The setting called `name`.
    pub fn get(&self, name: &str) -> (setting: &Setting)
        requires
            self@.contains_key(name@),
        ensures
            *setting == self@[name@],
    {
        match self.position(name) {
            Some(at) => &self.values[at],
            None => {
                proof {
                    assert(false);
                }
                &self.values[0]
            },
        }
    }

    /// The setting called `name`, if there is one.
    pub fn find(&self, name: &str) -> (setting: Option<Setting>)
        ensures
            setting == if self@.contains_key(name@) {
                Some(self@[name@])
            } else {
                None
            },
    {
        match self.position(name) {
            Some(at) => Some(self.values[at]),
            None => None,
        }
    }

    /// The number of frames drawn unconditionally after a change.
    pub fn extra_buffer_frames(&self) -> (frames: u16)
        ensures
            self@.contains_key("extra_buffer_frames"@),
            self@["extra_buffer_frames"@] == Setting::U16(frames),
            frames == self.buffer_frames(),
    {
        proof {
            use_type_invariant(self);
        }
        self.get("extra_buffer_frames").read_u16()
    }

    /// Whether idle throttling is switched off.
    pub fn no_idle(&self) -> (off: bool)
        ensures
            self@.contains_key("no_idle"@),
            self@["no_idle"@] == Setting::Bool(off),
    {
        proof {
            use_type_invariant(self);
        }
        self.get("no_idle").read_bool()
    }

    /// Whether the command line asked for a log file.
    pub fn log_to_file(&self) -> (asked: bool)
        ensures
            asked == self.logs_to_file(),
    {
        self.log_to_file
    }

    /// Takes up a change that the editor reported, given as plain values: the
    /// setting's name, if the editor sent a string, and its new value, if the
    /// editor sent an unsigned number. Names and types stay as they are.
    pub fn handle_changed(&mut self, name: Option<String>, number: Option<u64>)
        ensures
            final(self)@ == notified(old(self)@, text_of(name), number),
            final(self).names() == old(self).names(),
            final(self).arguments() == old(self).arguments(),
            final(self).logs_to_file() == old(self).logs_to_file(),
    {
        proof {
            use_type_invariant(&*self);
        }
        match name {
            Some(name) => {
                match self.position(name.as_str()) {
                    Some(at) => {
                        let mut setting = self.values[at];
                        match number {
                            Some(number) => {
                                setting.assign(number);
                            },
                            None => {},
                        }
                        let ghost listed = texts(self.names@);
                        let ghost before = self.values@;
                        self.values = replaced(&self.values, at, setting);
                        proof {
                            lemma_table_update(listed, before, at as int, setting);
                            assert(before[at as int].parsed(number).same_type(before[at as int]));
                        }
                    },
                    None => {},
                }
            },
            None => {},
        }
    }

    /// Takes up a change notification from the editor. Its first argument names
    /// the setting and its second is the new value.
    pub fn handle_changed_notification(&mut self, arguments: Vec<Value>)
        requires
            arguments.len() >= 2,
        ensures
            final(self)@ == notified(
                old(self)@,
                value_text(arguments[0]),
                unsigned(value_integer(arguments[1])),
            ),
            final(self).names() == old(self).names(),
            final(self).arguments() == old(self).arguments(),
            final(self).logs_to_file() == old(self).logs_to_file(),
    {
        let mut arguments = arguments;
        let value = arguments.remove(1);
        let name = arguments.remove(0);
        let name = value_to_string(name);
        let number = value_to_u64(value);
        self.handle_changed(name, number);
    }

    /// Settles one setting's first value. The editor was asked for the
    /// variable of that name: what it answered becomes the setting's value, and
    /// where it had none, the value to store there is returned instead.
    pub fn read_initial_value(&mut self, name: &str, response: Option<Value>) -> (reply: Option<
        Value,
    >)
        ensures
            final(self).names() == old(self).names(),
            final(self).arguments() == old(self).arguments(),
            final(self).logs_to_file() == old(self).logs_to_file(),
            match response {
                Some(value) => {
                    &&& reply is None
                    &&& final(self)@ == notified(
                        old(self)@,
                        Some(name@),
                        unsigned(value_integer(value)),
                    )
                },
                None => {
                    &&& final(self)@ == old(self)@
                    &&& match reply {
                        Some(stored) => {
                            &&& old(self)@.contains_key(name@)
                            &&& value_integer(stored) == Some(old(self)@[name@].number() as int)
                        },
                        None => !old(self)@.contains_key(name@),
                    }
                },
            },
    {
        match response {
            Some(value) => {
                let number = value_to_u64(value);
                self.handle_changed(Some(name.to_owned()), number);
                None
            },
            None => {
                match self.find(name) {
                    Some(setting) => Some(setting.unparse()),
                    None => None,
                }
            },
        }
    }

    /// The names of the settings, in the order in which they are announced to
    /// the editor.
    pub fn setting_names(&self) -> (names: Vec<String>)
        ensures
            texts(names@) == self.names(),
    {
        let mut names: Vec<String> = Vec::new();
        let mut at: usize = 0;
        while at < self.names.len()
            invariant
                at <= self.names.len(),
                texts(names@) == texts(self.names@).take(at as int),
            decreases self.names.len() - at,
        {
            let name = self.names[at].clone();
            assert(texts(names@.push(name)) =~= texts(names@).push(name@));
            names.push(name);
            assert(texts(names@) =~= texts(self.names@).take(at + 1));
            at += 1;
        }
        assert(texts(names@) =~= texts(self.names@));
        names
    }

    /// The command line with which the editor is started: `--embed`, then what
    /// the front end's own command line left over, without the program's name
    /// that leads it.
    pub fn editor_arguments(&self) -> (arguments: Vec<String>)
        ensures
            texts(arguments@) == editor_command_line(self.arguments()),
    {
        let mut arguments: Vec<String> = Vec::new();
        arguments.push("--embed".to_owned());
        assert(texts(arguments@) =~= seq!["--embed"@]);
        if self.neovim_arguments.len() == 0 {
            return arguments;
        }
        let mut at: usize = 1;
        assert(texts(arguments@) =~= seq!["--embed"@] + texts(self.neovim_arguments@).subrange(
            1,
            1,
        ));
        while at < self.neovim_arguments.len()
            invariant
                1 <= at,
                at <= self.neovim_arguments.len(),
                texts(arguments@) == seq!["--embed"@] + texts(self.neovim_arguments@).subrange(
                    1,
                    at as int,
                ),
            decreases self.neovim_arguments.len() - at,
        {
            let argument = self.neovim_arguments[at].clone();
            assert(texts(arguments@.push(argument)) =~= texts(arguments@).push(argument@));
            arguments.push(argument);
            assert(texts(arguments@) =~= seq!["--embed"@] + texts(
                self.neovim_arguments@,
            ).subrange(1, at + 1));
            at += 1;
        }
        arguments
    }

    /// The name of the editor variable that mirrors the setting `name`.
    pub fn variable_name(name: &str) -> (variable: String)
        ensures
            variable@ == variable_text(name@),
    {
        let mut variable = "g:neovide_".to_owned();
        variable.append(name);
        variable
    }

    /// The script that makes the editor report every change of the setting
    /// `name`.
    pub fn listener_script(name: &str) -> (script: String)
        ensures
            script@ == listener_text(name@),
    {
        let mut script = "function NeovideNotify".to_owned();
        script.append(name);
        script.append("Changed(d, k, z)\n");
        script.append("  call rpcnotify(1, \"setting_changed\", \"");
        script.append(name);
        script.append("\", g:neovide_");
        script.append(name);
        script.append(")\n");
        script.append("endfunction\n");
        script.append("call dictwatcheradd(g:, \"neovide_");
        script.append(name);
        script.append("\", \"NeovideNotify");
        script.append(name);
        script.append("Changed\")");
        script
    }

    /// The diagnostic for a setting whose changes the editor could not be
    /// made to report.
    pub fn listener_failure(name: &str) -> (message: String)
        ensures
            message@ == "Could not setup setting notifier for "@ + name@,
    {
        let mut message = "Could not setup setting notifier for ".to_owned();
        message.append(name);
        message
    }

    /// Reads the front end's command line. `--log` asks for a log file,
    /// `--noIdle` switches idle throttling off, `--extraBufferFrames` raises
    /// the number of frames drawn after a change from 1 to 60; every other
    /// argument is left for the editor.
    pub fn new(arguments: Vec<String>) -> (settings: Settings)
        ensures
            settings.arguments() == forwarded(texts(arguments@)),
            settings.logs_to_file() == texts(arguments@).contains("--log"@),
            settings.names() == seq!["no_idle"@, "extra_buffer_frames"@],
            settings@ == map![
                "no_idle"@ => Setting::Bool(texts(arguments@).contains("--noIdle"@)),
                "extra_buffer_frames"@ => Setting::U16(
                    if texts(arguments@).contains("--extraBufferFrames"@) { 60u16 } else { 1u16 },
                ),
            ],
            settings@["no_idle"@] == Setting::Bool(texts(arguments@).contains("--noIdle"@)),
            settings@["extra_buffer_frames"@] == Setting::U16(
                if texts(arguments@).contains("--extraBufferFrames"@) { 60u16 } else { 1u16 },
            ),
    {
        let log_flag = "--log".to_owned();
        let idle_flag = "--noIdle".to_owned();
        let frames_flag = "--extraBufferFrames".to_owned();
        let mut log_to_file = false;
        let mut no_idle = false;
        let mut buffer_frames: u16 = 1;
        let mut neovim_arguments: Vec<String> = Vec::new();
        let ghost given = texts(arguments@);
        let mut i: usize = 0;
        assert(texts(neovim_arguments@) =~= forwarded(given.take(0)));
        while i < arguments.len()
            invariant
                i <= arguments.len(),
                given == texts(arguments@),
                log_flag@ == "--log"@,
                idle_flag@ == "--noIdle"@,
                frames_flag@ == "--extraBufferFrames"@,
                texts(neovim_arguments@) == forwarded(given.take(i as int)),
                log_to_file == given.take(i as int).contains("--log"@),
                no_idle == given.take(i as int).contains("--noIdle"@),
                buffer_frames == if given.take(i as int).contains("--extraBufferFrames"@) {
                    60u16
                } else {
                    1u16
                },
            decreases arguments.len() - i,
        {
            let argument = arguments[i].clone();
            proof {
                let before = given.take(i as int);
                let after = given.take(i + 1);
                assert(after =~= before.push(argument@));
                before.lemma_filter_push(argument@, is_forwarded());
                lemma_flags_differ();
                lemma_contains_push(before, argument@, "--log"@);
                lemma_contains_push(before, argument@, "--noIdle"@);
                lemma_contains_push(before, argument@, "--extraBufferFrames"@);
                assert(texts(neovim_arguments@.push(argument)) =~= texts(neovim_arguments@).push(
                    argument@,
                ));
            }
            if argument == log_flag {
                log_to_file = true;
            } else if argument == idle_flag {
                no_idle = true;
            } else if argument == frames_flag {
                buffer_frames = 60;
            } else {
                neovim_arguments.push(argument);
            }
            i += 1;
        }
        assert(given.take(i as int) =~= given);
        let mut names: Vec<String> = Vec::new();
        names.push("no_idle".to_owned());
        names.push("extra_buffer_frames".to_owned());
        let mut values: Vec<Setting> = Vec::new();
        values.push(Setting::new_bool(no_idle));
        values.push(Setting::new_u16(buffer_frames));
        proof {
            lemma_known_names_differ();
            let listed = texts(names@);
            assert(listed =~= seq!["no_idle"@, "extra_buffer_frames"@]);
            assert(listed.contains("no_idle"@) && listed.contains("extra_buffer_frames"@));
            assert(listed.index_of("no_idle"@) == 0);
            assert(listed.index_of("extra_buffer_frames"@) == 1);
            assert forall|name: Seq<char>| listed.contains(name) implies name == "no_idle"@ || name
                == "extra_buffer_frames"@ by {
                let at = choose|at: int| 0 <= at < listed.len() && listed[at] == name;
                assert(at == 0 || at == 1);
            }
            assert(table(listed, values@) =~= map![
                "no_idle"@ => Setting::Bool(no_idle),
                "extra_buffer_frames"@ => Setting::U16(buffer_frames),
            ]);
        }
        Settings { neovim_arguments, names, values, log_to_file }
    }
}

/// The values with the one at place `at` replaced.
fn replaced(values: &Vec<Setting>, at: usize, value: Setting) -> (updated: Vec<Setting>)
    requires
        at < values.len(),
    ensures
        updated@ == values@.update(at as int, value),
{
    let mut updated: Vec<Setting> = Vec::new();
    let mut next: usize = 0;
    while next < values.len()
        invariant
            next <= values.len(),
            at < values.len(),
            updated@ == values@.update(at as int, value).take(next as int),
        decreases values.len() - next,
    {
        updated.push(if next == at { value } else { values[next] });
        assert(updated@ =~= values@.update(at as int, value).take(next + 1));
        next += 1;
    }
    assert(updated@ =~= values@.update(at as int, value));
    updated
}

/// Replacing the value at one place of a table of distinct names replaces the
/// value of the name at that place.
proof fn lemma_table_update(names: Seq<Seq<char>>, values: Seq<Setting>, at: int, value: Setting)
    requires
        names.no_duplicates(),
        names.len() == values.len(),
        0 <= at < names.len(),
    ensures
        table(names, values.update(at, value)) == table(names, values).insert(names[at], value),
        forall|name: Seq<char>|
            names.contains(name) && name != names[at] ==> #[trigger] names.index_of(name) != at,
        names.index_of(names[at]) == at,
{
    assert(names.contains(names[at]));
    assert(names.index_of(names[at]) == at);
    assert forall|name: Seq<char>| names.contains(name) && name != names[at] implies (
    #[trigger] names.index_of(name)) != at by {
        assert(names[names.index_of(name)] == name);
    }
    assert(table(names, values.update(at, value)) =~= table(names, values).insert(
        names[at],
        value,
    ));
}

/// The front end's three flags are three different words.
proof fn lemma_flags_differ()
    ensures
        "--log"@ != "--noIdle"@,
        "--log"@ != "--extraBufferFrames"@,
        "--noIdle"@ != "--extraBufferFrames"@,
{
    reveal_strlit("--log");
    reveal_strlit("--noIdle");
    reveal_strlit("--extraBufferFrames");
    assert("--log"@.len() == 5);
    assert("--noIdle"@.len() == 8);
    assert("--extraBufferFrames"@.len() == 19);
}

/// The two settings that the front end itself reads have different names.
proof fn lemma_known_names_differ()
    ensures
        "no_idle"@ != "extra_buffer_frames"@,
{
    reveal_strlit("no_idle");
    reveal_strlit("extra_buffer_frames");
    assert("no_idle"@.len() != "extra_buffer_frames"@.len());
}

/// A sequence with one more item holds what it held before, and that item.
proof fn lemma_contains_push<A>(items: Seq<A>, last: A, needle: A)
    ensures
        items.push(last).contains(needle) <==> (items.contains(needle) || last == needle),
{
    let longer = items.push(last);
    if items.contains(needle) {
        let at = choose|at: int| 0 <= at < items.len() && items[at] == needle;
        assert(longer[at] == needle);
    }
    if last == needle {
        assert(longer[items.len() as int] == needle);
    }
    if longer.contains(needle) {
        let at = choose|at: int| 0 <= at < longer.len() && longer[at] == needle;
        if at < items.len() {
            assert(items[at] == needle);
        }
    }
}

} // verus!
