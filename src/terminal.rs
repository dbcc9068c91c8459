use crate::event::{Event, Key};
use vstd::prelude::*;

verus! {

/// The words of `s`, split on whitespace as `str::split_whitespace` does.
pub uninterp spec fn words_of(s: Seq<char>) -> Seq<Seq<char>>;

/// Relies on str::split_whitespace: the non-empty runs of non-whitespace
/// characters of `s`, in order, which depend on `s` alone.
#[verifier::external_body]
fn split_words(s: &str) -> (r: Vec<String>)
    ensures
        r@.map_values(|w: String| w@) == words_of(s@),
{
    s.split_whitespace().map(|w| w.to_string()).collect()
}

/// The prompt shown after a directory.
pub open spec fn prompt_for(dir: Seq<char>) -> Seq<char> {
    dir + seq!['$', ' ']
}

/// `p` ends with the prompt mark `"$ "`.
pub open spec fn ends_with_prompt_mark(p: Seq<char>) -> bool {
    p.len() >= 2 && p.subrange(p.len() - 2, p.len() as int) == seq!['$', ' ']
}

/// The word that asks for a change of directory.
pub open spec fn cd_word() -> Seq<char> {
    seq!['c', 'd']
}

/// What a submitted command line asks for.
#[derive(Debug)]
pub enum CommandPlan {
    /// The line holds no word.
    Nothing,
    /// `cd` followed by a path (further words are ignored).
    ChangeDir(String),
    /// Run `program` with `args`.
    Spawn { program: String, args: Vec<String> },
}

/// `plan` is what the words of a command line ask for.
pub open spec fn plan_fits(plan: CommandPlan, words: Seq<Seq<char>>) -> bool {
    match plan {
        CommandPlan::Nothing => words.len() == 0,
        CommandPlan::ChangeDir(path) => {
            &&& words.len() > 1
            &&& words[0] == cd_word()
            &&& path@ == words[1]
        },
        CommandPlan::Spawn { program, args } => {
            &&& words.len() > 0
            &&& !(words.len() > 1 && words[0] == cd_word())
            &&& program@ == words[0]
            &&& args@.map_values(|a: String| a@) == words.drop_first()
        },
    }
}

/// What a key press did to the terminal.
#[derive(Debug)]
pub enum KeyOutcome {
    /// The event was not consumed.
    Unhandled,
    /// The last character of the command line was removed.
    Erased,
    /// The event's text was added to the command line.
    Typed,
    /// Enter was pressed: the command line is to be carried out.
    Submit(CommandPlan),
}

/// The state of a terminal: its prompt and the command line being typed.
pub struct Term {
    current_dir: String,
    cmd: String,
}

impl Term {
    /// The prompt always ends with the prompt mark.
    #[verifier::type_invariant]
    spec fn inv(&self) -> bool {
        ends_with_prompt_mark(self.current_dir@)
    }

    /// The prompt shown before each command.
    pub closed spec fn prompt_spec(&self) -> Seq<char> {
        self.current_dir@
    }

    /// The command line typed so far.
    pub closed spec fn cmd_spec(&self) -> Seq<char> {
        self.cmd@
    }

    /// A terminal in directory `dir`, with an empty command line.
    pub fn new(dir: &str) -> (t: Term)
        ensures
            t.prompt_spec() == prompt_for(dir@),
            t.cmd_spec() == Seq::<char>::empty(),
    {
        let mut current_dir = dir.to_owned();
        let suffix = "$ ";
        proof {
            reveal_strlit("$ ");
        }
        current_dir.append(suffix);
        assert(current_dir@ =~= prompt_for(dir@));
        assert(current_dir@.subrange(current_dir@.len() - 2, current_dir@.len() as int)
            =~= seq!['$', ' ']);
        Term { current_dir, cmd: String::new() }
    }

    /// The prompt shown before each command; whatever directory it names,
    /// it ends with `"$ "`.
    pub fn prompt(&self) -> (r: &str)
        ensures
            r@ == self.prompt_spec(),
            ends_with_prompt_mark(r@),
    {
        proof {
            use_type_invariant(self);
        }
        self.current_dir.as_str()
    }

    /// The command line typed so far.
    pub fn cmd(&self) -> (r: &str)
        ensures
            r@ == self.cmd_spec(),
    {
        self.cmd.as_str()
    }

    /// Works out what the command line typed so far asks for.
    pub fn plan_command(&self) -> (plan: CommandPlan)
        ensures
            plan_fits(plan, words_of(self.cmd_spec())),
    {
        let words = split_words(self.cmd.as_str());
        let ghost wv = words@.map_values(|w: String| w@);
        assert(wv.len() == words@.len());
        if words.len() == 0 {
            return CommandPlan::Nothing;
        }
        let cd = "cd".to_owned();
        proof {
            reveal_strlit("cd");
            assert(cd@ =~= cd_word());
            assert(wv[0] == words[0]@);
        }
        if words.len() > 1 && words[0] == cd {
            assert(wv[1] == words[1]@);
            return CommandPlan::ChangeDir(words[1].clone());
        }
        let program = words[0].clone();
        let mut args: Vec<String> = Vec::new();
        let mut i: usize = 1;
        while i < words.len()
            invariant
                1 <= i <= words.len(),
                wv == words@.map_values(|w: String| w@),
                args@.map_values(|a: String| a@) =~= wv.subrange(1, i as int),
            decreases words.len() - i,
        {
            let w = words[i].clone();
            let ghost prev = args@;
            assert(w@ == wv[i as int]);
            args.push(w);
            assert(args@.map_values(|a: String| a@) =~= prev.map_values(|a: String| a@).push(
                wv[i as int],
            ));
            assert(wv.subrange(1, i + 1) =~= wv.subrange(1, i as int).push(wv[i as int]));
            i = i + 1;
        }
        assert(wv.subrange(1, wv.len() as int) =~= wv.drop_first());
        CommandPlan::Spawn { program, args }
    }

    /// Removes the last character of the command line, if there is one;
    /// reports whether the key press was consumed.
    pub fn backspace(&mut self) -> (consumed: bool)
        ensures
            consumed == (old(self).cmd_spec().len() > 0),
            final(self).prompt_spec() == old(self).prompt_spec(),
            consumed ==> final(self).cmd_spec() == old(self).cmd_spec().drop_last(),
            !consumed ==> final(self).cmd_spec() == old(self).cmd_spec(),
    {
        proof {
            use_type_invariant(&*self);
        }
        let n = self.cmd.as_str().unicode_len();
        if n == 0 {
            return false;
        }
        let shorter = self.cmd.as_str().substring_char(0, n - 1).to_owned();
        assert(shorter@ =~= old(self).cmd@.drop_last());
        self.cmd = shorter;
        true
    }

    /// Handles one event of the terminal widget: typed text joins the
    /// command line, Backspace removes its last character, and Enter hands
    /// the command line over to be carried out.
    pub fn handle_key(&mut self, ev: Event, key: Key, text: &str) -> (r: KeyOutcome)
        ensures
            final(self).prompt_spec() == old(self).prompt_spec(),
            ev != Event::KeyDown ==> r is Unhandled && final(self).cmd_spec() == old(
                self,
            ).cmd_spec(),
            ev == Event::KeyDown && key == Key::Enter ==> {
                &&& r is Submit
                &&& plan_fits(r->Submit_0, words_of(old(self).cmd_spec()))
                &&& final(self).cmd_spec() == old(self).cmd_spec()
            },
            ev == Event::KeyDown && key == Key::BackSpace ==> {
                if old(self).cmd_spec().len() > 0 {
                    r is Erased && final(self).cmd_spec() == old(self).cmd_spec().drop_last()
                } else {
                    r is Unhandled && final(self).cmd_spec() == old(self).cmd_spec()
                }
            },
            ev == Event::KeyDown && key != Key::Enter && key != Key::BackSpace ==> {
                &&& r is Typed
                &&& final(self).cmd_spec() == old(self).cmd_spec() + text@
            },
    {
        if ev != Event::KeyDown {
            return KeyOutcome::Unhandled;
        }
        match key {
            Key::Enter => KeyOutcome::Submit(self.plan_command()),
            Key::BackSpace => {
                if self.backspace() {
                    KeyOutcome::Erased
                } else {
                    KeyOutcome::Unhandled
                }
            },
            _ => {
                proof {
                    use_type_invariant(&*self);
                }
                let mut cmd = self.cmd.clone();
                cmd.append(text);
                self.cmd = cmd;
                KeyOutcome::Typed
            },
        }
    }

    /// Settles a change of directory: `new_dir` is the working directory
    /// after a successful change, or `None` where the path is not an
    /// existing directory. Returns the text to show.
    pub fn change_dir(&mut self, new_dir: Option<&str>) -> (r: String)
        ensures
            final(self).cmd_spec() == old(self).cmd_spec(),
            match new_dir {
                Some(d) => r@ == Seq::<char>::empty() && final(self).prompt_spec() == prompt_for(
                    d@,
                ),
                None => r@ == "Path does not exist!\n"@ && final(self).prompt_spec() == old(
                    self,
                ).prompt_spec(),
            },
    {
        match new_dir {
            Some(d) => {
                let mut current_dir = d.to_owned();
                let suffix = "$ ";
                proof {
                    reveal_strlit("$ ");
                }
                current_dir.append(suffix);
                assert(current_dir@ =~= prompt_for(d@));
                assert(current_dir@.subrange(current_dir@.len() - 2, current_dir@.len() as int)
                    =~= seq!['$', ' ']);
                self.current_dir = current_dir;
                String::new()
            },
            None => "Path does not exist!\n".to_owned(),
        }
    }

    /// The text to show for a spawned command: its output, or a message
    /// naming the command line where it could not be started.
    pub fn spawn_report(&self, output: Option<String>) -> (r: String)
        ensures
            match output {
                Some(o) => r@ == o@,
                None => r@ == self.cmd_spec() + ": command not found!\n"@,
            },
    {
        match output {
            Some(o) => o,
            None => {
                let mut msg = self.cmd.clone();
                msg.append(": command not found!\n");
                msg
            },
        }
    }

    /// Ends the handling of Enter: clears the command line and returns what
    /// follows the command's output on the display, a fresh prompt.
    pub fn finish_command(&mut self, output: &str) -> (r: String)
        ensures
            r@ == output@ + old(self).prompt_spec(),
            final(self).prompt_spec() == old(self).prompt_spec(),
            final(self).cmd_spec() == Seq::<char>::empty(),
    {
        let mut text = output.to_owned();
        text.append(self.current_dir.as_str());
        proof {
            use_type_invariant(&*self);
        }
        self.cmd = String::new();
        text
    }
}

} // verus!
