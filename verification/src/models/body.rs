//! The JSON bodies of device commands, as flat lists of named values.

use vstd::prelude::*;

verus! {

/// A value in a command body.
#[derive(Debug, Clone, Copy, PartialEq, Eq, Structural)]
pub enum BodyValue {
    Bool(bool),
    Number(u32),
}

/// A command body: a JSON object whose fields are listed in order.
#[derive(Debug, Clone)]
pub struct CommandBody {
    pub fields: Vec<(String, BodyValue)>,
}

impl View for CommandBody {
    type V = Seq<(Seq<char>, BodyValue)>;

    open spec fn view(&self) -> Seq<(Seq<char>, BodyValue)> {
        self.fields@.map_values(|f: (String, BodyValue)| (f.0@, f.1))
    }
}

impl CommandBody {
    /// A body with no fields.
    pub fn new() -> (b: CommandBody)
        ensures
            b@ == Seq::<(Seq<char>, BodyValue)>::empty(),
    {
        let b = CommandBody { fields: Vec::new() };
        assert(b@ =~= Seq::<(Seq<char>, BodyValue)>::empty());
        b
    }

    /// Adds a field at the end.
    pub fn push(&mut self, key: &str, value: BodyValue)
        ensures
            final(self)@ == old(self)@.push((key@, value)),
    {
        self.fields.push((String::from_str(key), value));
        assert(self@ =~= old(self)@.push((key@, value)));
    }

    /// The body that every device command carries: `{"statePollOnly": false}`.
    pub fn state_poll_only() -> (b: CommandBody)
        ensures
            b@ == seq![("statePollOnly"@, BodyValue::Bool(false))],
    {
        let mut b = CommandBody::new();
        b.push("statePollOnly", BodyValue::Bool(false));
        b
    }
}

} // verus!
