//! Documents as the store holds them: a map from field names to values.
use vstd::prelude::*;
use vstd::string::StringExecFns;

verus! {

/// One value of a document, as far as the ledger reads values.
#[derive(Clone, Debug, PartialEq, Eq)]
pub enum Value {
    /// The explicit empty value.
    Nil,
    /// A keyword, spelled with its leading colon.
    Keyword(String),
    /// A string.
    Text(String),
    /// A non-negative integer.
    UInt(u64),
    /// An integer that the store spelled with a sign.
    Int(i64),
    /// Anything else: the ledger carries it and never reads it.
    Unsupported,
}

/// What a [`Value`] stands for.
pub enum ValueView {
    Nil,
    Keyword(Seq<char>),
    Text(Seq<char>),
    UInt(u64),
    Int(i64),
    Unsupported,
}

impl View for Value {
    type V = ValueView;

    open spec fn view(&self) -> ValueView {
        match self {
            Value::Nil => ValueView::Nil,
            Value::Keyword(k) => ValueView::Keyword(k@),
            Value::Text(t) => ValueView::Text(t@),
            Value::UInt(u) => ValueView::UInt(*u),
            Value::Int(i) => ValueView::Int(*i),
            Value::Unsupported => ValueView::Unsupported,
        }
    }
}

/// A named value.
#[derive(Clone, Debug, PartialEq, Eq)]
pub struct Field {
    pub key: String,
    pub value: Value,
}

/// What a [`Field`] stands for.
pub struct FieldView {
    pub key: Seq<char>,
    pub value: ValueView,
}

impl View for Field {
    type V = FieldView;

    open spec fn view(&self) -> FieldView {
        FieldView { key: self.key@, value: self.value@ }
    }
}

/// The map that a list of fields spells: where a name occurs twice, the later
/// field counts.
pub open spec fn fields_map(fields: Seq<FieldView>) -> Map<Seq<char>, ValueView>
    decreases fields.len(),
{
    if fields.len() == 0 {
        Map::empty()
    } else {
        fields_map(fields.drop_last()).insert(fields.last().key, fields.last().value)
    }
}

/// The views of a list of fields, in order.
pub open spec fn field_views(fields: Seq<Field>) -> Seq<FieldView> {
    fields.map_values(|f: Field| f@)
}

/// A document: fields in the order in which they were set.
#[derive(Clone, Debug, PartialEq, Eq)]
pub struct Document {
    pub fields: Vec<Field>,
}

impl View for Document {
    type V = Map<Seq<char>, ValueView>;

    open spec fn view(&self) -> Map<Seq<char>, ValueView> {
        fields_map(field_views(self.fields@))
    }
}

impl Document {
    /// The document without fields.
    pub fn new() -> (doc: Document)
        ensures
            doc@ == Map::<Seq<char>, ValueView>::empty(),
    {
        Document { fields: Vec::new() }
    }

    /// Sets the field `key` to `value`, whether or not the document had it.
    pub fn set(&mut self, key: &str, value: Value)
        ensures
            final(self)@ == old(self)@.insert(key@, value@),
    {
        let field = Field { key: String::from_str(key), value };
        proof {
            let before = field_views(self.fields@);
            let after = field_views(self.fields@.push(field));
            assert(after.drop_last() =~= before);
            assert(after.last() == field@);
        }
        self.fields.push(field);
    }

    /// The value of the field `key`, if the document has that field.
    pub fn get(&self, key: &str) -> (found: Option<&Value>)
        ensures
            match found {
                Some(value) => self@.contains_key(key@) && self@[key@] == value@,
                None => !self@.contains_key(key@),
            },
    {
        let wanted = String::from_str(key);
        let ghost all = field_views(self.fields@);
        let mut i: usize = self.fields.len();
        assert(all.take(i as int) =~= all);
        while i > 0
            invariant
                i <= self.fields.len(),
                all == field_views(self.fields@),
                wanted@ == key@,
                fields_map(all).contains_key(key@) <==> fields_map(all.take(i as int)).contains_key(
                    key@,
                ),
                fields_map(all).contains_key(key@) ==> fields_map(all)[key@] == fields_map(
                    all.take(i as int),
                )[key@],
            decreases i,
        {
            proof {
                let upto = all.take(i as int);
                assert(upto.drop_last() =~= all.take(i - 1));
                assert(upto.last() == self.fields@[i - 1]@);
            }
            i = i - 1;
            if self.fields[i].key == wanted {
                return Some(&self.fields[i].value);
            }
        }
        None
    }
}

} // verus!
