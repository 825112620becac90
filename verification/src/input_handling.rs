//! Resolution of raw key presses plus held modifiers into named,
//! user-configurable actions, and preparation of the user commands those
//! presses trigger.
//!
//! A chord is written `Mod+Mod+...+Key`, case-insensitively, with whitespace
//! trimmed around each `+`. A chord matches if and only if its key equals the
//! pressed key and the modifier set it implies is exactly the held modifier
//! set: holding an unlisted modifier breaks the match.

use vstd::prelude::*;
use vstd::string::StrSliceExecFns;
use vstd::string::StringExecFns;

use crate::text::fold_lower;
use crate::text::lemma_split_plus_nonempty;
use crate::text::replace_seq;
use crate::text::replace_all;
use crate::text::split_on_plus;
use crate::text::split_plus;
use crate::text::str_eq;
use crate::text::str_eq_fold_both;
use crate::text::str_eq_folded;
use crate::text::trim;
use crate::text::trimmed;

verus! {

/// The set of modifier keys held down, or implied by a chord.
#[derive(Clone, Copy, Debug, PartialEq, Eq, Structural)]
pub struct Modifiers {
    pub alt: bool,
    pub ctrl: bool,
    pub logo: bool,
}

/// The host platform family, which decides what the platform-aliased
/// `CmdCtrl` modifier token means: the logo (command) key on Mac systems,
/// the control key everywhere else.
#[derive(Clone, Copy, Debug, PartialEq, Eq, Structural)]
pub enum Platform {
    MacOs,
    Other,
}

/// One modifier token of a chord folded into the modifier set accumulated so
/// far; tokens naming no known modifier are ignored.
pub open spec fn apply_mod_token(m: Modifiers, token: Seq<char>, platform: Platform) -> Modifiers {
    if fold_lower(token) == "alt"@ {
        Modifiers { alt: true, ..m }
    } else if fold_lower(token) == "ctrl"@ {
        Modifiers { ctrl: true, ..m }
    } else if fold_lower(token) == "logo"@ {
        Modifiers { logo: true, ..m }
    } else if fold_lower(token) == "cmdctrl"@ {
        if platform is MacOs {
            Modifiers { logo: true, ..m }
        } else {
            Modifiers { ctrl: true, ..m }
        }
    } else {
        m
    }
}

/// The modifier set implied by a chord's modifier tokens.
pub open spec fn mods_from(tokens: Seq<Seq<char>>, platform: Platform) -> Modifiers
    decreases tokens.len(),
{
    if tokens.len() == 0 {
        Modifiers { alt: false, ctrl: false, logo: false }
    } else {
        apply_mod_token(mods_from(tokens.drop_last(), platform), tokens.last(), platform)
    }
}

/// The parts of a chord: split on `+`, each part whitespace-trimmed.
pub open spec fn chord_parts(chord: Seq<char>) -> Seq<Seq<char>> {
    split_plus(chord).map_values(|p: Seq<char>| trimmed(p))
}

/// Whether one chord matches the pressed key and the exact held modifier set.
/// The last part is the required key, compared case-insensitively; all
/// preceding parts are modifier names.
pub open spec fn chord_matches(
    chord: Seq<char>,
    input_key: Seq<char>,
    held: Modifiers,
    platform: Platform,
) -> bool {
    let parts = chord_parts(chord);
    &&& fold_lower(parts.last()) == fold_lower(input_key)
    &&& mods_from(parts.drop_last(), platform) == held
}

/// Whether any chord in the list matches; an empty list triggers nothing.
pub open spec fn keys_trigger(
    keys: Seq<String>,
    input_key: Seq<char>,
    held: Modifiers,
    platform: Platform,
) -> bool {
    exists|i: int|
        0 <= i < keys.len() && chord_matches(#[trigger] keys[i]@, input_key, held, platform)
}

/// Whether one chord string matches the pressed key and held modifiers.
fn chord_triggered(chord: &str, input_key: &str, modifiers: Modifiers, platform: Platform) -> (r:
    bool)
    ensures
        r == chord_matches(chord@, input_key@, modifiers, platform),
{
    let parts: Vec<String> = split_on_plus(chord);
    proof {
        lemma_split_plus_nonempty(chord@);
    }
    let ghost cparts = chord_parts(chord@);
    let n = parts.len();
    let key_part = trim(parts[n - 1].as_str());
    proof {
        assert(cparts.last() == trimmed(split_plus(chord@)[n - 1]));
    }
    if !str_eq_fold_both(key_part, input_key) {
        return false;
    }
    let mut m = Modifiers { alt: false, ctrl: false, logo: false };
    let mut j: usize = 0;
    while j < n - 1
        invariant
            1 <= n == parts@.len(),
            n == split_plus(chord@).len(),
            forall|k: int| 0 <= k < n ==> #[trigger] parts@[k]@ == split_plus(chord@)[k],
            cparts == chord_parts(chord@),
            0 <= j <= n - 1,
            m == mods_from(cparts.take(j as int), platform),
        decreases n - 1 - j,
    {
        let tok = trim(parts[j].as_str());
        proof {
            assert(cparts[j as int] == trimmed(split_plus(chord@)[j as int]));
        }
        if str_eq_folded(tok, "alt") {
            m.alt = true;
        } else if str_eq_folded(tok, "ctrl") {
            m.ctrl = true;
        } else if str_eq_folded(tok, "logo") {
            m.logo = true;
        } else if str_eq_folded(tok, "cmdctrl") {
            match platform {
                Platform::MacOs => m.logo = true,
                Platform::Other => m.ctrl = true,
            }
        }
        proof {
            assert(cparts.take(j + 1 as int).drop_last() =~= cparts.take(j as int));
            assert(cparts.take(j + 1 as int).last() == cparts[j as int]);
        }
        j = j + 1;
    }
    proof {
        assert(cparts.take(n - 1 as int) =~= cparts.drop_last());
    }
    m.alt == modifiers.alt && m.ctrl == modifiers.ctrl && m.logo == modifiers.logo
}

/// Whether any chord in `keys` matches the pressed key and the exact held
/// modifier set; chords are checked in listed order, first match winning,
/// which affects only short-circuiting, never the result.
pub fn keys_triggered(
    keys: &Vec<String>,
    input_key: &str,
    modifiers: Modifiers,
    platform: Platform,
) -> (r: bool)
    ensures
        r == keys_trigger(keys@, input_key@, modifiers, platform),
{
    let mut i: usize = 0;
    while i < keys.len()
        invariant
            0 <= i <= keys@.len(),
            forall|k: int| 0 <= k < i ==> !chord_matches(
                #[trigger] keys@[k]@,
                input_key@,
                modifiers,
                platform,
            ),
        decreases keys@.len() - i,
    {
        if chord_triggered(keys[i].as_str(), input_key, modifiers, platform) {
            return true;
        }
        i = i + 1;
    }
    false
}

/// A table mapping action names to the list of chords bound to each; newer
/// entries for the same name shadow older ones.
pub struct BindingTable {
    pub entries: Vec<(String, Vec<String>)>,
}

/// The chord list bound to `name` in `entries`, earliest entry winning.
pub open spec fn lookup_entries(
    entries: Seq<(String, Vec<String>)>,
    name: Seq<char>,
) -> Option<Seq<String>>
    decreases entries.len(),
{
    if entries.len() == 0 {
        None
    } else if entries[0].0@ == name {
        Some(entries[0].1@)
    } else {
        lookup_entries(entries.drop_first(), name)
    }
}

/// The chord lists of a lookup result, as character sequences.
pub open spec fn chord_views(keys: Seq<String>) -> Seq<Seq<char>> {
    keys.map_values(|k: String| k@)
}

impl BindingTable {
    /// The chord list bound to `name`, if any.
    pub open spec fn spec_lookup(&self, name: Seq<char>) -> Option<Seq<String>> {
        lookup_entries(self.entries@, name)
    }

    pub fn new() -> (r: BindingTable)
        ensures
            r.entries@.len() == 0,
            forall|name: Seq<char>| r.spec_lookup(name) is None,
    {
        BindingTable { entries: Vec::new() }
    }

    /// Binds `name` to `chords`, shadowing any earlier binding of that name.
    pub fn insert(&mut self, name: String, chords: Vec<String>)
        ensures
            final(self).entries@ == old(self).entries@.insert(0, (name, chords)),
            forall|n: Seq<char>| final(self).spec_lookup(n) == if n == name@ {
                Some(chords@)
            } else {
                old(self).spec_lookup(n)
            },
    {
        let ghost name0 = name@;
        let ghost chords0 = chords@;
        self.entries.insert(0, (name, chords));
        proof {
            assert(self.entries@.drop_first() =~= old(self).entries@);
        }
    }

    /// The chord list bound to `name`, if any.
    pub fn get(&self, name: &str) -> (r: Option<&Vec<String>>)
        ensures
            match r {
                Some(ks) => self.spec_lookup(name@) == Some(ks@),
                None => self.spec_lookup(name@) is None,
            },
    {
        let mut i: usize = 0;
        proof {
            assert(self.entries@.skip(0) =~= self.entries@);
        }
        while i < self.entries.len()
            invariant
                0 <= i <= self.entries@.len(),
                lookup_entries(self.entries@.skip(i as int), name@) == lookup_entries(
                    self.entries@,
                    name@,
                ),
            decreases self.entries@.len() - i,
        {
            if str_eq(self.entries[i].0.as_str(), name) {
                proof {
                    assert(self.entries@.skip(i as int)[0] == self.entries@[i as int]);
                }
                return Some(&self.entries[i].1);
            }
            proof {
                assert(self.entries@.skip(i as int).drop_first() =~= self.entries@.skip(i + 1));
            }
            i = i + 1;
        }
        proof {
            assert(self.entries@.skip(i as int).len() == 0);
        }
        None
    }
}

/// The chord lists of the built-in default binding table, by action name, in
/// the order the table resolves them.
pub open spec fn default_chords(name: Seq<char>) -> Option<Seq<Seq<char>>> {
    if name == "toggle_fullscreen"@ {
        Some(seq!["F11"@, "Return"@])
    } else if name == "escape"@ {
        Some(seq!["Escape"@, "Q"@])
    } else if name == "img_next"@ {
        Some(seq!["D"@, "Right"@, "PageDown"@])
    } else if name == "img_prev"@ {
        Some(seq!["A"@, "Left"@, "PageUp"@])
    } else if name == "img_orig"@ {
        Some(seq!["1"@])
    } else if name == "img_fit"@ {
        Some(seq!["F"@])
    } else if name == "img_fit_best"@ {
        Some(seq!["E"@])
    } else if name == "img_del"@ {
        Some(seq!["Delete"@])
    } else if name == "img_copy"@ {
        Some(seq!["CmdCtrl+C"@])
    } else if name == "pan"@ {
        Some(seq!["Space"@])
    } else if name == "play_anim"@ {
        Some(seq!["Alt+A"@, "Alt+V"@])
    } else if name == "play_present"@ {
        Some(seq!["P"@])
    } else if name == "play_present_rnd"@ {
        Some(seq!["Alt+P"@])
    } else if name == "toggle_antialias"@ {
        Some(seq!["S"@])
    } else if name == "automatic_antialias"@ {
        Some(seq!["Alt+S"@])
    } else {
        None
    }
}

/// A one-chord list.
fn chords1(a: &str) -> (r: Vec<String>)
    ensures
        chord_views(r@) =~= seq![a@],
{
    let mut v: Vec<String> = Vec::new();
    v.push(a.to_owned());
    v
}

/// A two-chord list.
fn chords2(a: &str, b: &str) -> (r: Vec<String>)
    ensures
        chord_views(r@) =~= seq![a@, b@],
{
    let mut v: Vec<String> = Vec::new();
    v.push(a.to_owned());
    v.push(b.to_owned());
    v
}

/// A three-chord list.
fn chords3(a: &str, b: &str, c: &str) -> (r: Vec<String>)
    ensures
        chord_views(r@) =~= seq![a@, b@, c@],
{
    let mut v: Vec<String> = Vec::new();
    v.push(a.to_owned());
    v.push(b.to_owned());
    v.push(c.to_owned());
    v
}

/// The process-wide built-in default binding table: constructed once at
/// startup, then only read, and passed by shared reference into resolver
/// calls.
pub fn default_bindings() -> (r: BindingTable)
    ensures
        forall|name: Seq<char>| match (#[trigger] r.spec_lookup(name), default_chords(name)) {
            (Some(ks), Some(cs)) => chord_views(ks) == cs,
            (None, None) => true,
            _ => false,
        },
{
    let mut t = BindingTable::new();
    t.insert(String::from_str("automatic_antialias"), chords1("Alt+S"));
    t.insert(String::from_str("toggle_antialias"), chords1("S"));
    t.insert(String::from_str("play_present_rnd"), chords1("Alt+P"));
    t.insert(String::from_str("play_present"), chords1("P"));
    t.insert(String::from_str("play_anim"), chords2("Alt+A", "Alt+V"));
    t.insert(String::from_str("pan"), chords1("Space"));
    t.insert(String::from_str("img_copy"), chords1("CmdCtrl+C"));
    t.insert(String::from_str("img_del"), chords1("Delete"));
    t.insert(String::from_str("img_fit_best"), chords1("E"));
    t.insert(String::from_str("img_fit"), chords1("F"));
    t.insert(String::from_str("img_orig"), chords1("1"));
    t.insert(String::from_str("img_prev"), chords3("A", "Left", "PageUp"));
    t.insert(String::from_str("img_next"), chords3("D", "Right", "PageDown"));
    t.insert(String::from_str("escape"), chords2("Escape", "Q"));
    t.insert(String::from_str("toggle_fullscreen"), chords2("F11", "Return"));
    t
}

/// The chord list bound to `name` in `defaults`, or the empty list.
pub open spec fn default_or_empty(defaults: BindingTable, name: Seq<char>) -> Seq<String> {
    match defaults.spec_lookup(name) {
        Some(ks) => ks,
        None => Seq::empty(),
    }
}

/// The chord list that governs `name`: the user table's entry if the user
/// table exists and has one, else the default table's entry, else none.
pub open spec fn effective_chords(
    user: Option<BindingTable>,
    defaults: BindingTable,
    name: Seq<char>,
) -> Seq<String> {
    match user {
        Some(u) => match u.spec_lookup(name) {
            Some(ks) => ks,
            None => default_or_empty(defaults, name),
        },
        None => default_or_empty(defaults, name),
    }
}

/// Whether the named action is triggered by the pressed key and the exact
/// held modifier set, resolving the action's chord list through the user
/// table first and the built-in defaults second. An action bound nowhere
/// never triggers; that is not an error.
pub fn action_triggered(
    bindings: Option<&BindingTable>,
    defaults: &BindingTable,
    action_name: &str,
    input_key: &str,
    modifiers: Modifiers,
    platform: Platform,
) -> (r: bool)
    ensures
        r == keys_trigger(
            effective_chords(
                match bindings {
                    Some(u) => Some(*u),
                    None => None,
                },
                *defaults,
                action_name@,
            ),
            input_key@,
            modifiers,
            platform,
        ),
{
    let user_keys: Option<&Vec<String>> = match bindings {
        Some(user) => user.get(action_name),
        None => None,
    };
    match user_keys {
        Some(keys) => keys_triggered(keys, input_key, modifiers, platform),
        None => match defaults.get(action_name) {
            Some(keys) => keys_triggered(keys, input_key, modifiers, platform),
            None => false,
        },
    }
}

/// Law: an action name absent from the user table resolves to the default
/// table's chord list for that name (and to no chords at all when the
/// defaults lack it too), so `action_triggered` matches using the default
/// chord list.
pub proof fn lemma_user_absent_falls_back(
    user: BindingTable,
    defaults: BindingTable,
    name: Seq<char>,
)
    requires
        user.spec_lookup(name) is None,
    ensures
        match defaults.spec_lookup(name) {
            Some(ks) => effective_chords(Some(user), defaults, name) == ks,
            None => effective_chords(Some(user), defaults, name) == Seq::<String>::empty(),
        },
        effective_chords(Some(user), defaults, name) == effective_chords(
            None,
            defaults,
            name,
        ),
{
}

/// The key name a typed character contributes to chord matching: named keys
/// for the characters that cannot appear literally in a chord.
pub open spec fn input_key_of(ch: Seq<char>) -> Seq<char> {
    if ch == " "@ {
        "space"@
    } else if ch == "+"@ {
        "add"@
    } else if ch == "-"@ {
        "subtract"@
    } else {
        ch
    }
}

/// Translates a typed character into the key name used in chords.
pub fn char_to_input_key(ch: &str) -> (r: String)
    ensures
        r@ == input_key_of(ch@),
{
    if str_eq(ch, " ") {
        String::from_str("space")
    } else if str_eq(ch, "+") {
        String::from_str("add")
    } else if str_eq(ch, "-") {
        String::from_str("subtract")
    } else {
        ch.to_owned()
    }
}

/// `s` after the substitutions in `vars`, applied in order.
pub open spec fn substituted(s: Seq<char>, vars: Seq<(String, String)>) -> Seq<char>
    decreases vars.len(),
{
    if vars.len() == 0 {
        s
    } else {
        substituted(replace_seq(s, vars[0].0@, vars[0].1@), vars.drop_first())
    }
}

/// Replaces every occurrence of each variable name in `var_map` by its
/// substitute, applying the variables in listed order.
pub fn substitute_command_parameters(string: &str, var_map: &Vec<(String, String)>) -> (r: String)
    ensures
        r@ == substituted(string@, var_map@),
{
    let mut result: String = string.to_owned();
    let mut i: usize = 0;
    proof {
        assert(var_map@.skip(0) =~= var_map@);
    }
    while i < var_map.len()
        invariant
            0 <= i <= var_map@.len(),
            substituted(string@, var_map@) == substituted(result@, var_map@.skip(i as int)),
        decreases var_map@.len() - i,
    {
        result = replace_all(result.as_str(), var_map[i].0.as_str(), var_map[i].1.as_str());
        proof {
            assert(var_map@.skip(i as int).drop_first() =~= var_map@.skip(i + 1));
        }
        i = i + 1;
    }
    proof {
        assert(var_map@.skip(var_map@.len() as int).len() == 0);
    }
    result
}

/// One environment variable a user command runs with.
pub struct EnvVar {
    pub name: String,
    pub value: String,
}

/// A user-configured command: the chords that trigger it, the program to
/// run, and its optional arguments and environment.
pub struct CustomCommand {
    pub input: Vec<String>,
    pub program: String,
    pub args: Option<Vec<String>>,
    pub envs: Option<Vec<EnvVar>>,
}

/// A command ready to hand to a process spawner: program, arguments with
/// `${img}` and `${folder}` substituted, and environment pairs.
pub struct PreparedCommand {
    pub program: String,
    pub args: Vec<String>,
    pub envs: Vec<(String, String)>,
}

/// An argument with `${img}` replaced by the image path and then `${folder}`
/// replaced by the folder path.
pub open spec fn substituted_arg(arg: Seq<char>, img: Seq<char>, folder: Seq<char>) -> Seq<char> {
    replace_seq(replace_seq(arg, "${img}"@, img), "${folder}"@, folder)
}

/// The indices, in order, of the commands whose chord lists the pressed key
/// and held modifiers trigger.
pub open spec fn triggered_indices(
    commands: Seq<CustomCommand>,
    input_key: Seq<char>,
    held: Modifiers,
    platform: Platform,
) -> Seq<int>
    decreases commands.len(),
{
    if commands.len() == 0 {
        Seq::empty()
    } else {
        let rest = triggered_indices(commands.drop_last(), input_key, held, platform);
        if keys_trigger(commands.last().input@, input_key, held, platform) {
            rest + seq![commands.len() - 1]
        } else {
            rest
        }
    }
}

/// The prepared argument list matches the command's argument list after
/// substitution; a command with no argument list runs with none.
pub open spec fn args_prepared(
    pargs: Seq<String>,
    args: Option<Vec<String>>,
    img: Seq<char>,
    folder: Seq<char>,
) -> bool {
    match args {
        Some(a) => pargs.len() == a@.len() && forall|j: int|
            0 <= j < a@.len() ==> #[trigger] pargs[j]@ == substituted_arg(a@[j]@, img, folder),
        None => pargs.len() == 0,
    }
}

/// The prepared environment matches the command's environment list pairwise.
pub open spec fn envs_prepared(penvs: Seq<(String, String)>, envs: Option<Vec<EnvVar>>) -> bool {
    match envs {
        Some(e) => penvs.len() == e@.len() && forall|j: int|
            0 <= j < e@.len() ==> (#[trigger] penvs[j]).0@ == e@[j].name@ && penvs[j].1@
                == e@[j].value@,
        None => penvs.len() == 0,
    }
}

/// `p` is `c` made ready to run against the given image and folder paths.
pub open spec fn command_prepared(
    p: PreparedCommand,
    c: CustomCommand,
    img: Seq<char>,
    folder: Seq<char>,
) -> bool {
    &&& p.program@ == c.program@
    &&& args_prepared(p.args@, c.args, img, folder)
    &&& envs_prepared(p.envs@, c.envs)
}

/// `r` holds exactly the triggered commands of `commands`, in order, each
/// prepared to run.
pub open spec fn prepared_matches(
    r: Seq<PreparedCommand>,
    commands: Seq<CustomCommand>,
    input_key: Seq<char>,
    held: Modifiers,
    platform: Platform,
    img: Seq<char>,
    folder: Seq<char>,
) -> bool {
    let idxs = triggered_indices(commands, input_key, held, platform);
    &&& r.len() == idxs.len()
    &&& forall|k: int| 0 <= k < r.len() ==> 0 <= #[trigger] idxs[k] < commands.len()
        && command_prepared(r[k], commands[idxs[k]], img, folder)
}

/// Selects every user command triggered by the pressed key and held
/// modifiers and prepares it to run: arguments get `${img}` and `${folder}`
/// substituted by the given paths, environment pairs are carried over. The
/// caller spawns the processes; this function only decides and prepares.
pub fn triggered_commands(
    commands: &Vec<CustomCommand>,
    input_key: &str,
    modifiers: Modifiers,
    platform: Platform,
    img_path: &str,
    folder_path: &str,
) -> (r: Vec<PreparedCommand>)
    ensures
        prepared_matches(
            r@,
            commands@,
            input_key@,
            modifiers,
            platform,
            img_path@,
            folder_path@,
        ),
{
    let mut vars: Vec<(String, String)> = Vec::new();
    vars.push((String::from_str("${img}"), img_path.to_owned()));
    vars.push((String::from_str("${folder}"), folder_path.to_owned()));
    let mut r: Vec<PreparedCommand> = Vec::new();
    let mut i: usize = 0;
    proof {
        assert(commands@.take(0).len() == 0);
    }
    while i < commands.len()
        invariant
            vars@.len() == 2,
            vars@[0].0@ == "${img}"@,
            vars@[0].1@ == img_path@,
            vars@[1].0@ == "${folder}"@,
            vars@[1].1@ == folder_path@,
            0 <= i <= commands@.len(),
            prepared_matches(
                r@,
                commands@.take(i as int),
                input_key@,
                modifiers,
                platform,
                img_path@,
                folder_path@,
            ),
        decreases commands@.len() - i,
    {
        let c = &commands[i];
        let ghost done = commands@.take(i as int);
        let ghost idxs = triggered_indices(done, input_key@, modifiers, platform);
        proof {
            assert(commands@.take(i + 1 as int).drop_last() =~= done);
            assert(commands@.take(i + 1 as int).last() == commands@[i as int]);
        }
        if keys_triggered(&c.input, input_key, modifiers, platform) {
            let mut pargs: Vec<String> = Vec::new();
            match &c.args {
                Some(args) => {
                    let mut j: usize = 0;
                    while j < args.len()
                        invariant
                            vars@.len() == 2,
                            vars@[0].0@ == "${img}"@,
                            vars@[0].1@ == img_path@,
                            vars@[1].0@ == "${folder}"@,
                            vars@[1].1@ == folder_path@,
                            0 <= j <= args@.len(),
                            pargs@.len() == j,
                            forall|q: int| 0 <= q < j ==> #[trigger] pargs@[q]@
                                == substituted_arg(args@[q]@, img_path@, folder_path@),
                        decreases args@.len() - j,
                    {
                        let s = substitute_command_parameters(args[j].as_str(), &vars);
                        proof {
                            let arg0 = args@[j as int]@;
                            let rest = vars@.drop_first();
                            assert(rest.len() == 1);
                            assert(rest[0] == vars@[1]);
                            let step1 = replace_seq(arg0, "${img}"@, img_path@);
                            assert(substituted(arg0, vars@) == substituted(step1, rest));
                            let step2 = replace_seq(step1, "${folder}"@, folder_path@);
                            assert(substituted(step1, rest) == substituted(
                                step2,
                                rest.drop_first(),
                            ));
                            assert(rest.drop_first().len() == 0);
                            assert(s@ == substituted_arg(arg0, img_path@, folder_path@));
                        }
                        pargs.push(s);
                        j = j + 1;
                    }
                },
                None => {},
            }
            let mut penvs: Vec<(String, String)> = Vec::new();
            match &c.envs {
                Some(envs) => {
                    let mut j: usize = 0;
                    while j < envs.len()
                        invariant
                            0 <= j <= envs@.len(),
                            penvs@.len() == j,
                            forall|q: int| 0 <= q < j ==> (#[trigger] penvs@[q]).0@
                                == envs@[q].name@ && penvs@[q].1@ == envs@[q].value@,
                        decreases envs@.len() - j,
                    {
                        penvs.push((envs[j].name.clone(), envs[j].value.clone()));
                        j = j + 1;
                    }
                },
                None => {},
            }
            let prepared = PreparedCommand { program: c.program.clone(), args: pargs, envs: penvs };
            proof {
                assert(command_prepared(
                    prepared,
                    commands@[i as int],
                    img_path@,
                    folder_path@,
                ));
            }
            r.push(prepared);
            proof {
                let idxs1 = triggered_indices(
                    commands@.take(i + 1 as int),
                    input_key@,
                    modifiers,
                    platform,
                );
                assert(idxs1 =~= idxs + seq![i as int]);
                assert forall|k: int| 0 <= k < r@.len() implies 0 <= #[trigger] idxs1[k] < i + 1
                    && command_prepared(
                    r@[k],
                    commands@.take(i + 1 as int)[idxs1[k]],
                    img_path@,
                    folder_path@,
                ) by {
                    if k < r@.len() - 1 {
                        assert(idxs1[k] == idxs[k]);
                        assert(commands@.take(i + 1 as int)[idxs[k]] == commands@.take(
                            i as int,
                        )[idxs[k]]);
                    } else {
                        assert(idxs1[k] == i as int);
                    }
                }
            }
        } else {
            proof {
                let idxs1 = triggered_indices(
                    commands@.take(i + 1 as int),
                    input_key@,
                    modifiers,
                    platform,
                );
                assert(idxs1 =~= idxs);
                assert forall|k: int| 0 <= k < r@.len() implies 0 <= #[trigger] idxs1[k] < i + 1
                    && command_prepared(
                    r@[k],
                    commands@.take(i + 1 as int)[idxs1[k]],
                    img_path@,
                    folder_path@,
                ) by {
                    assert(commands@.take(i + 1 as int)[idxs[k]] == commands@.take(
                        i as int,
                    )[idxs[k]]);
                }
            }
        }
        i = i + 1;
    }
    proof {
        assert(commands@.take(commands@.len() as int) =~= commands@);
    }
    r
}

} // verus!
