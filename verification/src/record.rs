//! Records as the management interface answers them: field names mapped to
//! tagged values.

use vstd::prelude::*;
use vstd::string::StringExecFns;

verus! {

/// One value of a record, tagged with the representation it arrived in.
#[derive(Clone, Debug)]
pub enum FieldValue {
    /// Text.
    Text(String),
    /// A signed 32-bit integer.
    I4(i32),
    /// An unsigned 32-bit integer.
    UI4(u32),
    /// An unsigned 64-bit integer.
    UI8(u64),
    /// Any other representation; nothing is read from it.
    Other,
}

/// The mathematical value of a [`FieldValue`].
pub enum FieldValueView {
    Text(Seq<char>),
    I4(i32),
    UI4(u32),
    UI8(u64),
    Other,
}

impl View for FieldValue {
    type V = FieldValueView;

    open spec fn view(&self) -> FieldValueView {
        match self {
            FieldValue::Text(s) => FieldValueView::Text(s@),
            FieldValue::I4(n) => FieldValueView::I4(*n),
            FieldValue::UI4(n) => FieldValueView::UI4(*n),
            FieldValue::UI8(n) => FieldValueView::UI8(*n),
            FieldValue::Other => FieldValueView::Other,
        }
    }
}

/// A named value inside a record.
#[derive(Clone, Debug)]
struct Field {
    name: String,
    value: FieldValue,
}

/// The mapping that a list of fields denotes: a later field replaces an
/// earlier one of the same name.
spec fn fields_map(fields: Seq<Field>) -> Map<Seq<char>, FieldValueView>
    decreases fields.len(),
{
    if fields.len() == 0 {
        Map::empty()
    } else {
        fields_map(fields.drop_last()).insert(fields.last().name@, fields.last().value@)
    }
}

/// One record of a query's answer.
#[derive(Clone, Debug)]
pub struct RawRecord {
    fields: Vec<Field>,
}

impl View for RawRecord {
    type V = Map<Seq<char>, FieldValueView>;

    closed spec fn view(&self) -> Map<Seq<char>, FieldValueView> {
        fields_map(self.fields@)
    }
}

impl RawRecord {
    /// A record without fields.
    pub fn new() -> (r: RawRecord)
        ensures
            r@ == Map::<Seq<char>, FieldValueView>::empty(),
    {
        RawRecord { fields: Vec::new() }
    }

    /// Sets the field `name` to `value`, replacing what it held.
    pub fn insert(&mut self, name: &str, value: FieldValue)
        ensures
            final(self)@ == old(self)@.insert(name@, value@),
    {
        let ghost before = self.fields@;
        self.fields.push(Field { name: String::from_str(name), value });
        assert(self.fields@.drop_last() =~= before);
    }

    /// The value of the field `name`, if the record has one.
    pub fn get(&self, name: &str) -> (r: Option<&FieldValue>)
        ensures
            match r {
                Some(v) => self@.contains_key(name@) && self@[name@] == v@,
                None => !self@.contains_key(name@),
            },
    {
        let wanted = String::from_str(name);
        let mut i: usize = self.fields.len();
        assert(self.fields@.take(i as int) =~= self.fields@);
        while i > 0
            invariant
                i <= self.fields.len(),
                wanted@ == name@,
                self@.contains_key(name@) == fields_map(self.fields@.take(i as int)).contains_key(
                    name@,
                ),
                self@.contains_key(name@) ==> self@[name@] == fields_map(
                    self.fields@.take(i as int),
                )[name@],
            decreases i,
        {
            assert(self.fields@.take(i as int).drop_last() =~= self.fields@.take(i - 1));
            assert(self.fields@.take(i as int).last() == self.fields@[i - 1]);
            i -= 1;
            if self.fields[i].name == wanted {
                return Some(&self.fields[i].value);
            }
        }
        None
    }
}

} // verus!
