use vstd::prelude::*;
use vstd::string::*;
use vstd::utf8::*;

use crate::call::Call;
use crate::editor::Editor;
use crate::transfer::Transfer;

verus! {

/// The arguments after the name, each as a space followed by the argument
/// in double quotes. Nothing inside an argument is escaped.
pub open spec fn quoted_args(args: Seq<Seq<char>>) -> Seq<char>
    decreases args.len(),
{
    if args.len() == 0 {
        Seq::empty()
    } else {
        quoted_args(args.drop_last()) + seq![' ', '"'] + args.last() + seq!['"']
    }
}

/// The command line for a command: a `:` when it is typed, the name, then
/// the quoted arguments.
pub open spec fn command_line(typed: bool, name: Seq<char>, args: Seq<Seq<char>>) -> Seq<char> {
    (if typed {
        seq![':']
    } else {
        Seq::<char>::empty()
    }) + name + quoted_args(args)
}

/// A command for the host's command-line channel: a name, literal
/// arguments in the order given, and whether it is a typed (`:`-prefixed)
/// command.
#[derive(Debug, Clone, PartialEq)]
pub struct Command {
    typed: bool,
    name: String,
    args: Vec<String>,
}

impl Command {
    /// Whether the command is typed.
    pub closed spec fn spec_typed(&self) -> bool {
        self.typed
    }

    /// The command's name.
    pub closed spec fn spec_name(&self) -> Seq<char> {
        self.name@
    }

    /// The arguments after the name, in order.
    pub closed spec fn spec_args(&self) -> Seq<Seq<char>> {
        self.args@.map_values(|a: String| a@)
    }

    /// The line this command serializes to.
    pub open spec fn spec_line(&self) -> Seq<char> {
        command_line(self.spec_typed(), self.spec_name(), self.spec_args())
    }

    /// An untyped command with no arguments.
    pub fn new(name: &str) -> (r: Command)
        ensures
            !r.spec_typed(),
            r.spec_name() == name@,
            r.spec_args() == Seq::<Seq<char>>::empty(),
    {
        let r = Command { typed: false, name: name.to_owned(), args: Vec::new() };
        assert(r.spec_args() =~= Seq::<Seq<char>>::empty());
        r
    }

    /// A typed command with no arguments.
    pub fn new_typed(name: &str) -> (r: Command)
        ensures
            r.spec_typed(),
            r.spec_name() == name@,
            r.spec_args() == Seq::<Seq<char>>::empty(),
    {
        let r = Command { typed: true, name: name.to_owned(), args: Vec::new() };
        assert(r.spec_args() =~= Seq::<Seq<char>>::empty());
        r
    }

    /// Make the command typed or not, as `t` says.
    pub fn typed(&mut self, t: bool) -> (r: &mut Command)
        ensures
            r.spec_typed() == t,
            r.spec_name() == old(self).spec_name(),
            r.spec_args() == old(self).spec_args(),
            *final(self) == *final(r),
    {
        self.typed = t;
        self
    }

    /// Append `arg` to the arguments.
    pub fn arg(&mut self, arg: &str) -> (r: &mut Command)
        ensures
            r.spec_typed() == old(self).spec_typed(),
            r.spec_name() == old(self).spec_name(),
            r.spec_args() == old(self).spec_args().push(arg@),
            *final(self) == *final(r),
    {
        self.args.push(arg.to_owned());
        assert(self.spec_args() =~= old(self).spec_args().push(arg@));
        self
    }

    /// Append `args` to the arguments, in order.
    pub fn args(&mut self, args: &[&str]) -> (r: &mut Command)
        ensures
            r.spec_typed() == old(self).spec_typed(),
            r.spec_name() == old(self).spec_name(),
            r.spec_args() == old(self).spec_args() + args@.map_values(|a: &str| a@),
            *final(self) == *final(r),
    {
        let mut i: usize = 0;
        while i < args.len()
            invariant
                i <= args.len(),
                self.spec_typed() == old(self).spec_typed(),
                self.spec_name() == old(self).spec_name(),
                self.spec_args() == old(self).spec_args() + args@.take(i as int).map_values(
                    |a: &str| a@,
                ),
            decreases args.len() - i,
        {
            let ghost before = self.spec_args();
            self.args.push(args[i].to_owned());
            assert(self.spec_args() =~= before.push(args@[i as int]@));
            assert(args@.take(i as int + 1).map_values(|a: &str| a@) =~= args@.take(
                i as int,
            ).map_values(|a: &str| a@).push(args@[i as int]@));
            assert(self.spec_args() =~= old(self).spec_args() + args@.take(i as int + 1).map_values(
                |a: &str| a@,
            ));
            i += 1;
        }
        assert(args@.take(args.len() as int) =~= args@);
        self
    }

    /// The command line: `:` if typed, the name, then each argument as a
    /// space and the argument wrapped in double quotes.
    pub fn line(&self) -> (r: String)
        ensures
            r@ == self.spec_line(),
    {
        proof {
            reveal_strlit(":");
            reveal_strlit(" \"");
            reveal_strlit("\"");
        }
        let mut line = String::new();
        if self.typed {
            line.append(":");
        }
        line.append(self.name.as_str());
        let ghost head = line@;
        assert(head == command_line(self.typed, self.name@, Seq::empty()));
        let mut i: usize = 0;
        while i < self.args.len()
            invariant
                i <= self.args.len(),
                line@ == head + quoted_args(self.spec_args().take(i as int)),
            decreases self.args.len() - i,
        {
            let ghost before = line@;
            line.append(" \"");
            line.append(self.args[i].as_str());
            line.append("\"");
            proof {
                reveal_strlit(" \"");
                reveal_strlit("\"");
                let taken = self.spec_args().take(i as int + 1);
                assert(taken.drop_last() =~= self.spec_args().take(i as int));
                assert(taken.last() == self.args@[i as int]@);
                assert(line@ =~= before + seq![' ', '"'] + self.args@[i as int]@ + seq!['"']);
                assert(line@ =~= head + quoted_args(taken));
            }
            i += 1;
        }
        assert(self.spec_args().take(self.args.len() as int) =~= self.spec_args());
        line
    }

    /// The call that runs this command through the host's command-line
    /// channel. The command is left as it was, so running it again issues
    /// the same line again.
    pub fn execute(&mut self) -> (r: Call)
        ensures
            *final(self) == *old(self),
            r matches Call::Execute(t) && t@ == encode_utf8(old(self).spec_line()),
    {
        let line = self.line();
        Editor.execute(line.as_str())
    }
}

} // verus!
