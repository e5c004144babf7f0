use vstd::prelude::*;
use vstd::string::*;

verus! {

/// The messages that a program has logged, each ended by a line feed.
pub struct LogBuffer {
    pub text: String,
}

impl View for LogBuffer {
    type V = Seq<char>;

    open spec fn view(&self) -> Seq<char> {
        self.text@
    }
}

/// The line feed that ends every message.
pub open spec fn line_feed() -> Seq<char> {
    seq!['\n']
}

impl LogBuffer {
    /// An empty log.
    pub fn new() -> (log: LogBuffer)
        ensures
            log@ == Seq::<char>::empty(),
    {
        LogBuffer { text: String::new() }
    }

    /// Forgets every message.
    pub fn clear_log(&mut self)
        ensures
            final(self)@ == Seq::<char>::empty(),
    {
        self.text = String::new();
    }

    /// Everything logged since the log was last cleared.
    pub fn get_log(&self) -> (text: String)
        ensures
            text@ == self@,
    {
        self.text.clone()
    }

    /// Appends a message and the line feed that ends it.
    pub fn log_message(&mut self, msg: &str)
        ensures
            final(self)@ == old(self)@ + msg@ + line_feed(),
    {
        proof {
            reveal_strlit("\n");
        }
        self.text.append(msg);
        self.text.append("\n");
        assert("\n"@ =~= line_feed());
    }
}

} // verus!
