//! A host that owns the plug-in it drives.

use vstd::prelude::*;
use vstd::string::StringExecFns;
use std::fmt::Debug;

verus! {

/// What a host asks of a plug-in: that it can be named, and that it answers a
/// message with a line of text.
pub trait Plug {
    /// The name the plug-in goes by.
    spec fn label(&self) -> Seq<char>;

    /// The line the plug-in answers `msg` with.
    spec fn answer(&self, msg: Seq<char>) -> Seq<char>;

    /// Answers `msg` with a line of text.
    fn do_plug_op(&self, msg: &str) -> (line: String)
        ensures
            line@ == self.answer(msg@),
    ;

    /// Names the plug-in.
    fn name(&mut self, n: &str)
        ensures
            final(self).label() == n@,
    ;
}

/// The text that comes before every line of output: a line break and two
/// spaces.
pub open spec fn indent() -> Seq<char> {
    "\n  "@
}

/// The name a host gives to its plug-in when it runs an operation.
pub open spec fn host_given_name() -> Seq<char> {
    "Jeff"@
}

/// The message a host sends to its plug-in when it runs an operation.
pub open spec fn host_message() -> Seq<char> {
    "pluggin called by Demo"@
}

/// A host that may hold one plug-in, which it owns.
#[derive(Debug)]
pub struct Demo<T> where T: Plug + Debug + Clone {
    pluggin: Option<T>,
}

impl<T> Demo<T> where T: Plug + Debug + Clone {
    /// The plug-in the host holds, if any.
    pub closed spec fn plugged(&self) -> Option<T> {
        self.pluggin
    }

    /// A host without a plug-in.
    pub fn new() -> (demo: Self)
        ensures
            demo.plugged().is_none(),
    {
        Self { pluggin: None }
    }

    /// Registers `p` in place of any plug-in the host held.
    pub fn accept(&mut self, p: T)
        ensures
            final(self).plugged() == Some(p),
    {
        self.pluggin = Some(p);
    }

    /// Runs the host's operation and returns the text it puts out: `msg` on a
    /// line of its own and, if the host holds a plug-in, the plug-in's answer to
    /// the host's message. The plug-in is renamed before it is asked.
    pub fn do_op(&mut self, msg: &str) -> (output: String)
        ensures
            match final(self).plugged() {
                Some(plug) => {
                    &&& old(self).plugged().is_some()
                    &&& plug.label() == host_given_name()
                    &&& output@ == indent() + msg@ + plug.answer(host_message())
                },
                None => old(self).plugged().is_none() && output@ == indent() + msg@,
            },
    {
        let mut output = String::from_str("\n  ");
        output.append(msg);
        match &mut self.pluggin {
            Some(plug) => {
                plug.name("Jeff");
                let line = plug.do_plug_op("pluggin called by Demo");
                output.append(line.as_str());
            },
            None => {},
        }
        output
    }

    /// A clone of the plug-in, if the host holds one.
    pub fn pluggin(&self) -> (plug: Option<T>)
        ensures
            plug.is_some() == self.plugged().is_some(),
            plug matches Some(copy) ==> cloned(self.plugged().unwrap(), copy),
    {
        self.pluggin.clone()
    }
}

/// A plug-in that answers with its name and the message it was sent.
#[derive(Debug, Clone)]
pub struct Pluggin {
    name: String,
}

impl Plug for Pluggin {
    open spec fn label(&self) -> Seq<char> {
        self.spec_name()
    }

    open spec fn answer(&self, msg: Seq<char>) -> Seq<char> {
        indent() + self.spec_name() + ": "@ + msg
    }

    fn do_plug_op(&self, msg: &str) -> (line: String) {
        let mut line = String::from_str("\n  ");
        line.append(self.name.as_str());
        line.append(": ");
        line.append(msg);
        line
    }

    fn name(&mut self, n: &str) {
        self.name = String::from_str(n);
    }
}

impl Pluggin {
    /// The plug-in's name.
    pub closed spec fn spec_name(&self) -> Seq<char> {
        self.name@
    }

    /// A plug-in without a name.
    pub fn new() -> (plug: Self)
        ensures
            plug.label() == Seq::<char>::empty(),
    {
        Self { name: String::new() }
    }
}

} // verus!
