use vstd::prelude::*;

verus! {

broadcast use vstd::std_specs::vec::group_vec_axioms;

/// Mathematical model of a value: the tree that a value denotes, whatever
/// way its payload is held.
pub enum Value {
    Null,
    Bool(bool),
    I64(i64),
    /// A 64-bit float, as its IEEE-754 bit pattern.
    F64(u64),
    Buf(Seq<char>),
    List(Seq<Value>),
    KvMap(Seq<(Seq<char>, Value)>),
}

/// An owned value: it holds its payload and every child exclusively.
#[derive(Debug)]
pub enum Object {
    /// Null value.
    Null,
    /// Boolean value.
    Bool(bool),
    /// Signed 64-bit integer.
    I64(i64),
    /// 64-bit floating point number, held as its IEEE-754 bit pattern.
    F64(u64),
    /// UTF-8 text.
    Buf(String),
    /// List of values.
    List(Vec<Object>),
    /// Key-value pairs, in insertion order.
    KvMap(Vec<Kv>),
}

/// A key-value pair.
#[derive(Debug)]
pub struct Kv {
    /// The key.
    pub key: String,
    /// The value.
    pub val: Object,
}

impl View for Object {
    type V = Value;

    open spec fn view(&self) -> Value
        decreases self,
    {
        match self {
            Object::Null => Value::Null,
            Object::Bool(b) => Value::Bool(*b),
            Object::I64(n) => Value::I64(*n),
            Object::F64(f) => Value::F64(*f),
            Object::Buf(s) => Value::Buf(s@),
            Object::List(items) => Value::List(items_view(items@)),
            Object::KvMap(pairs) => Value::KvMap(pairs_view(pairs@)),
        }
    }
}

/// The models of a sequence of values, element by element.
pub open spec fn items_view(items: Seq<Object>) -> Seq<Value>
    decreases items,
{
    if items.len() == 0 {
        Seq::empty()
    } else {
        items_view(items.drop_last()).push(items.last().view())
    }
}

/// The models of a sequence of pairs, element by element.
pub open spec fn pairs_view(pairs: Seq<Kv>) -> Seq<(Seq<char>, Value)>
    decreases pairs,
{
    if pairs.len() == 0 {
        Seq::empty()
    } else {
        pairs_view(pairs.drop_last()).push((pairs.last().key@, pairs.last().val.view()))
    }
}

impl View for Kv {
    type V = (Seq<char>, Value);

    open spec fn view(&self) -> (Seq<char>, Value) {
        (self.key@, self.val@)
    }
}

pub proof fn lemma_items_view(items: Seq<Object>)
    ensures
        items_view(items).len() == items.len(),
        forall|i: int| 0 <= i < items.len() ==> #[trigger] items_view(items)[i] == items[i]@,
    decreases items.len(),
{
    if items.len() > 0 {
        lemma_items_view(items.drop_last());
        assert(items_view(items) == items_view(items.drop_last()).push(items.last()@));
    }
}

pub proof fn lemma_pairs_view(pairs: Seq<Kv>)
    ensures
        pairs_view(pairs).len() == pairs.len(),
        forall|i: int| 0 <= i < pairs.len() ==> #[trigger] pairs_view(pairs)[i] == pairs[i]@,
    decreases pairs.len(),
{
    if pairs.len() > 0 {
        lemma_pairs_view(pairs.drop_last());
        assert(pairs_view(pairs) == pairs_view(pairs.drop_last()).push(pairs.last()@));
    }
}

/// A shared view of a list's items.
#[derive(Debug, Clone, Copy)]
pub struct List<'a>(pub &'a [Object]);

/// A shared view of a map's key-value pairs, in insertion order.
#[derive(Debug, Clone, Copy)]
pub struct KvMap<'a>(pub &'a [Kv]);

/// A shared view of a value's payload, borrowed from the value it was taken
/// from.
#[derive(Debug)]
pub enum UnpackedObject<'a> {
    /// Null value.
    Null,
    /// Boolean value.
    Bool(bool),
    /// Signed 64-bit integer.
    I64(i64),
    /// 64-bit floating point number, as its IEEE-754 bit pattern.
    F64(u64),
    /// UTF-8 text.
    Buf(&'a str),
    /// List of values.
    List(List<'a>),
    /// Key-value pairs.
    KvMap(KvMap<'a>),
}

impl<'a> View for UnpackedObject<'a> {
    type V = Value;

    open spec fn view(&self) -> Value {
        match self {
            UnpackedObject::Null => Value::Null,
            UnpackedObject::Bool(b) => Value::Bool(*b),
            UnpackedObject::I64(n) => Value::I64(*n),
            UnpackedObject::F64(f) => Value::F64(*f),
            UnpackedObject::Buf(s) => Value::Buf(s@),
            UnpackedObject::List(l) => Value::List(items_view(l.0@)),
            UnpackedObject::KvMap(m) => Value::KvMap(pairs_view(m.0@)),
        }
    }
}

/// `u` is the shared view of `o`: the same variant, with the same scalar, the
/// same text, or the very same children.
pub open spec fn is_unpacked(o: &Object, u: UnpackedObject) -> bool {
    match (o, u) {
        (Object::Null, UnpackedObject::Null) => true,
        (Object::Bool(b), UnpackedObject::Bool(c)) => *b == c,
        (Object::I64(n), UnpackedObject::I64(m)) => *n == m,
        (Object::F64(f), UnpackedObject::F64(g)) => *f == g,
        (Object::Buf(s), UnpackedObject::Buf(t)) => s@ == t@,
        (Object::List(v), UnpackedObject::List(l)) => v@ == l.0@,
        (Object::KvMap(v), UnpackedObject::KvMap(m)) => v@ == m.0@,
        _ => false,
    }
}

impl Object {
    /// A boolean value.
    pub fn bool(b: bool) -> (r: Object)
        ensures
            r@ == Value::Bool(b),
    {
        Object::Bool(b)
    }

    /// A signed integer value.
    pub fn i64(n: i64) -> (r: Object)
        ensures
            r@ == Value::I64(n),
    {
        Object::I64(n)
    }

    /// A floating point value, given as its IEEE-754 bit pattern.
    pub fn f64_bits(bits: u64) -> (r: Object)
        ensures
            r@ == Value::F64(bits),
    {
        Object::F64(bits)
    }

    /// A text value holding a copy of `s`.
    pub fn buf(s: &str) -> (r: Object)
        ensures
            r@ == Value::Buf(s@),
    {
        Object::Buf(s.to_owned())
    }

    /// A list value that takes ownership of `items`.
    pub fn list(items: Vec<Object>) -> (r: Object)
        ensures
            r@ == Value::List(items_view(items@)),
    {
        Object::List(items)
    }

    /// A map value that takes ownership of `pairs`, keeping their order.
    pub fn map(pairs: Vec<Kv>) -> (r: Object)
        ensures
            r@ == Value::KvMap(pairs_view(pairs@)),
    {
        Object::KvMap(pairs)
    }

    /// A shared view of this value's payload; nothing is copied.
    pub fn unpack(&self) -> (r: UnpackedObject<'_>)
        ensures
            is_unpacked(self, r),
            r@ == self@,
    {
        match self {
            Object::Null => UnpackedObject::Null,
            Object::Bool(b) => UnpackedObject::Bool(*b),
            Object::I64(n) => UnpackedObject::I64(*n),
            Object::F64(f) => UnpackedObject::F64(*f),
            Object::Buf(s) => UnpackedObject::Buf(s.as_str()),
            Object::List(items) => UnpackedObject::List(List(items.as_slice())),
            Object::KvMap(pairs) => UnpackedObject::KvMap(KvMap(pairs.as_slice())),
        }
    }

    /// A deep copy: a freshly owned tree equal to this one.
    pub fn to_owned(&self) -> (r: Object)
        ensures
            r@ == self@,
        decreases self,
    {
        match self {
            Object::Null => Object::Null,
            Object::Bool(b) => Object::Bool(*b),
            Object::I64(n) => Object::I64(*n),
            Object::F64(f) => Object::F64(*f),
            Object::Buf(s) => Object::Buf(s.clone()),
            Object::List(items) => {
                let mut out: Vec<Object> = Vec::new();
                let mut i: usize = 0;
                while i < items.len()
                    invariant
                        i <= items@.len(),
                        out@.len() == i,
                        forall|j: int| 0 <= j < i ==> (#[trigger] out@[j])@ == items@[j]@,
                        *self == Object::List(*items),
                    decreases items@.len() - i,
                {
                    proof {
                        vstd::std_specs::vec::axiom_vec_index_decreases(*items, i as int);
                        assert(decreases_to!(*self => (*self)->List_0));
                    }
                    out.push(items[i].to_owned());
                    i = i + 1;
                }
                proof {
                    lemma_items_view(out@);
                    lemma_items_view(items@);
                    assert(items_view(out@) =~= items_view(items@));
                }
                Object::List(out)
            },
            Object::KvMap(pairs) => {
                let mut out: Vec<Kv> = Vec::new();
                let mut i: usize = 0;
                while i < pairs.len()
                    invariant
                        i <= pairs@.len(),
                        out@.len() == i,
                        forall|j: int| 0 <= j < i ==> (#[trigger] out@[j])@ == pairs@[j]@,
                        *self == Object::KvMap(*pairs),
                    decreases pairs@.len() - i,
                {
                    proof {
                        vstd::std_specs::vec::axiom_vec_index_decreases(*pairs, i as int);
                        assert(decreases_to!(*self => (*self)->KvMap_0));
                        assert(decreases_to!(pairs[i as int] => pairs[i as int].val));
                    }
                    let val = pairs[i].val.to_owned();
                    out.push(Kv { key: pairs[i].key.clone(), val });
                    i = i + 1;
                }
                proof {
                    lemma_pairs_view(out@);
                    lemma_pairs_view(pairs@);
                    assert(pairs_view(out@) =~= pairs_view(pairs@));
                }
                Object::KvMap(out)
            },
        }
    }
}

/// Copies each of `items` into a fresh vector.
fn copy_items(items: &[Object]) -> (r: Vec<Object>)
    ensures
        r@.len() == items@.len(),
        forall|j: int| 0 <= j < items@.len() ==> (#[trigger] r@[j])@ == items@[j]@,
        items_view(r@) == items_view(items@),
{
    let mut out: Vec<Object> = Vec::new();
    let mut i: usize = 0;
    while i < items.len()
        invariant
            i <= items@.len(),
            out@.len() == i,
            forall|j: int| 0 <= j < i ==> (#[trigger] out@[j])@ == items@[j]@,
        decreases items@.len() - i,
    {
        out.push(items[i].to_owned());
        i = i + 1;
    }
    proof {
        lemma_items_view(out@);
        lemma_items_view(items@);
        assert(items_view(out@) =~= items_view(items@));
    }
    out
}

/// Copies each of `pairs`, key and value, into a fresh vector.
fn copy_pairs(pairs: &[Kv]) -> (r: Vec<Kv>)
    ensures
        r@.len() == pairs@.len(),
        forall|j: int| 0 <= j < pairs@.len() ==> (#[trigger] r@[j])@ == pairs@[j]@,
        pairs_view(r@) == pairs_view(pairs@),
{
    let mut out: Vec<Kv> = Vec::new();
    let mut i: usize = 0;
    while i < pairs.len()
        invariant
            i <= pairs@.len(),
            out@.len() == i,
            forall|j: int| 0 <= j < i ==> (#[trigger] out@[j])@ == pairs@[j]@,
        decreases pairs@.len() - i,
    {
        out.push(pairs[i].to_owned());
        i = i + 1;
    }
    proof {
        lemma_pairs_view(out@);
        lemma_pairs_view(pairs@);
        assert(pairs_view(out@) =~= pairs_view(pairs@));
    }
    out
}

impl<'a> UnpackedObject<'a> {
    /// A deep copy of the viewed value into a freshly owned tree.
    pub fn to_owned(&self) -> (r: Object)
        ensures
            r@ == self@,
    {
        match self {
            UnpackedObject::Null => Object::Null,
            UnpackedObject::Bool(b) => Object::Bool(*b),
            UnpackedObject::I64(n) => Object::I64(*n),
            UnpackedObject::F64(f) => Object::F64(*f),
            UnpackedObject::Buf(s) => Object::Buf((*s).to_owned()),
            UnpackedObject::List(l) => Object::List(copy_items(l.0)),
            UnpackedObject::KvMap(m) => Object::KvMap(copy_pairs(m.0)),
        }
    }
}

impl Kv {
    /// A key-value pair holding a copy of `key`.
    pub fn new(key: &str, value: Object) -> (r: Kv)
        ensures
            r.key@ == key@,
            r.val == value,
    {
        Kv { key: key.to_owned(), val: value }
    }

    /// The key.
    pub fn key(&self) -> (r: &str)
        ensures
            r@ == self.key@,
    {
        self.key.as_str()
    }

    /// The value.
    pub fn val(&self) -> (r: &Object)
        ensures
            *r == self.val,
    {
        &self.val
    }

    /// Replaces the key, keeping the value.
    pub fn set_key(&mut self, key: &str)
        ensures
            final(self).key@ == key@,
            final(self).val == old(self).val,
    {
        self.key = key.to_owned();
    }

    /// Exclusive access to the value, for replacing it in place.
    pub fn val_mut(&mut self) -> (r: &mut Object)
        ensures
            *r == old(self).val,
            final(self).key == old(self).key,
            final(self).val == *final(r),
    {
        &mut self.val
    }

    /// A deep copy of this pair.
    pub fn to_owned(&self) -> (r: Kv)
        ensures
            r@ == self@,
    {
        Kv { key: self.key.clone(), val: self.val.to_owned() }
    }
}

/// `key` occurs in `pairs` first at index `i`.
pub open spec fn first_key_at(pairs: Seq<Kv>, key: Seq<char>, i: int) -> bool {
    &&& 0 <= i < pairs.len()
    &&& pairs[i].key@ == key
    &&& forall|j: int| 0 <= j < i ==> (#[trigger] pairs[j]).key@ != key
}

/// `key` occurs nowhere in `pairs`.
pub open spec fn key_absent(pairs: Seq<Kv>, key: Seq<char>) -> bool {
    forall|j: int| 0 <= j < pairs.len() ==> (#[trigger] pairs[j]).key@ != key
}

impl<'a> KvMap<'a> {
    /// Number of pairs.
    pub fn len(&self) -> (r: usize)
        ensures
            r == self.0@.len(),
    {
        self.0.len()
    }

    /// The value of the first pair whose key equals `key`, scanning in
    /// insertion order; `None` where no key equals it.
    pub fn get(&self, key: &str) -> (r: Option<&'a Object>)
        ensures
            match r {
                Some(v) => exists|i: int| first_key_at(self.0@, key@, i) && *v == self.0@[i].val,
                None => key_absent(self.0@, key@),
            },
    {
        let wanted = key.to_owned();
        let pairs: &'a [Kv] = self.0;
        let mut i: usize = 0;
        while i < pairs.len()
            invariant
                i <= pairs@.len(),
                pairs@ == self.0@,
                wanted@ == key@,
                forall|j: int| 0 <= j < i ==> (#[trigger] pairs@[j]).key@ != key@,
            decreases pairs@.len() - i,
        {
            if pairs[i].key == wanted {
                assert(first_key_at(self.0@, key@, i as int));
                return Some(&pairs[i].val);
            }
            i = i + 1;
        }
        None
    }
}

impl<'a> List<'a> {
    /// Number of items.
    pub fn len(&self) -> (r: usize)
        ensures
            r == self.0@.len(),
    {
        self.0.len()
    }
}

/// An exclusive view of a value's payload, for replacing it or its children
/// in place; borrowed from the value it was taken from.
#[derive(Debug)]
pub enum UnpackedObjectMut<'a> {
    /// Null value.
    Null,
    /// Boolean value.
    Bool(&'a mut bool),
    /// Signed 64-bit integer.
    I64(&'a mut i64),
    /// 64-bit floating point number, as its IEEE-754 bit pattern.
    F64(&'a mut u64),
    /// UTF-8 text.
    Buf(&'a mut String),
    /// List of values.
    List(&'a mut Vec<Object>),
    /// Key-value pairs.
    KvMap(&'a mut Vec<Kv>),
}

impl<'a> View for UnpackedObjectMut<'a> {
    type V = Value;

    open spec fn view(&self) -> Value {
        match self {
            UnpackedObjectMut::Null => Value::Null,
            UnpackedObjectMut::Bool(b) => Value::Bool(**b),
            UnpackedObjectMut::I64(n) => Value::I64(**n),
            UnpackedObjectMut::F64(f) => Value::F64(**f),
            UnpackedObjectMut::Buf(s) => Value::Buf((**s)@),
            UnpackedObjectMut::List(v) => Value::List(items_view((**v)@)),
            UnpackedObjectMut::KvMap(v) => Value::KvMap(pairs_view((**v)@)),
        }
    }
}

impl<'a> UnpackedObjectMut<'a> {
    /// A deep copy of the viewed value, as it is now, into a freshly owned
    /// tree.
    pub fn to_owned(&self) -> (r: Object)
        ensures
            r@ == self@,
    {
        match self {
            UnpackedObjectMut::Null => Object::Null,
            UnpackedObjectMut::Bool(b) => Object::Bool(**b),
            UnpackedObjectMut::I64(n) => Object::I64(**n),
            UnpackedObjectMut::F64(f) => Object::F64(**f),
            UnpackedObjectMut::Buf(s) => Object::Buf((**s).clone()),
            UnpackedObjectMut::List(v) => Object::List(copy_items(v.as_slice())),
            UnpackedObjectMut::KvMap(v) => Object::KvMap(copy_pairs(v.as_slice())),
        }
    }
}

impl Object {
    /// An exclusive view of this value's payload; nothing is copied. What is
    /// written through the view is what the value holds afterwards.
    pub fn unpack_mut(&mut self) -> (r: UnpackedObjectMut<'_>)
        ensures
            match r {
                UnpackedObjectMut::Null => *old(self) is Null && *final(self) is Null,
                UnpackedObjectMut::Bool(b) => *old(self) == Object::Bool(*b) && *final(self)
                    == Object::Bool(*final(b)),
                UnpackedObjectMut::I64(n) => *old(self) == Object::I64(*n) && *final(self)
                    == Object::I64(*final(n)),
                UnpackedObjectMut::F64(f) => *old(self) == Object::F64(*f) && *final(self)
                    == Object::F64(*final(f)),
                UnpackedObjectMut::Buf(s) => *old(self) == Object::Buf(*s) && *final(self)
                    == Object::Buf(*final(s)),
                UnpackedObjectMut::List(v) => *old(self) == Object::List(*v) && *final(self)
                    == Object::List(*final(v)),
                UnpackedObjectMut::KvMap(v) => *old(self) == Object::KvMap(*v) && *final(self)
                    == Object::KvMap(*final(v)),
            },
    {
        match self {
            Object::Null => UnpackedObjectMut::Null,
            Object::Bool(b) => UnpackedObjectMut::Bool(b),
            Object::I64(n) => UnpackedObjectMut::I64(n),
            Object::F64(f) => UnpackedObjectMut::F64(f),
            Object::Buf(s) => UnpackedObjectMut::Buf(s),
            Object::List(v) => UnpackedObjectMut::List(v),
            Object::KvMap(v) => UnpackedObjectMut::KvMap(v),
        }
    }
}

impl From<bool> for Object {
    fn from(b: bool) -> (r: Object) {
        Object::Bool(b)
    }
}

impl vstd::std_specs::convert::FromSpecImpl<bool> for Object {
    open spec fn obeys_from_spec() -> bool {
        true
    }

    open spec fn from_spec(b: bool) -> Object {
        Object::Bool(b)
    }
}

impl From<i64> for Object {
    fn from(n: i64) -> (r: Object) {
        Object::I64(n)
    }
}

impl vstd::std_specs::convert::FromSpecImpl<i64> for Object {
    open spec fn obeys_from_spec() -> bool {
        true
    }

    open spec fn from_spec(n: i64) -> Object {
        Object::I64(n)
    }
}

impl From<Vec<Object>> for Object {
    fn from(items: Vec<Object>) -> (r: Object) {
        Object::List(items)
    }
}

impl vstd::std_specs::convert::FromSpecImpl<Vec<Object>> for Object {
    open spec fn obeys_from_spec() -> bool {
        true
    }

    open spec fn from_spec(items: Vec<Object>) -> Object {
        Object::List(items)
    }
}

impl From<Vec<Kv>> for Object {
    fn from(pairs: Vec<Kv>) -> (r: Object) {
        Object::KvMap(pairs)
    }
}

impl vstd::std_specs::convert::FromSpecImpl<Vec<Kv>> for Object {
    open spec fn obeys_from_spec() -> bool {
        true
    }

    open spec fn from_spec(pairs: Vec<Kv>) -> Object {
        Object::KvMap(pairs)
    }
}

impl<'a> From<&'a [Kv]> for KvMap<'a> {
    fn from(pairs: &'a [Kv]) -> (r: KvMap<'a>) {
        KvMap(pairs)
    }
}

impl<'a> vstd::std_specs::convert::FromSpecImpl<&'a [Kv]> for KvMap<'a> {
    open spec fn obeys_from_spec() -> bool {
        true
    }

    open spec fn from_spec(pairs: &'a [Kv]) -> KvMap<'a> {
        KvMap(pairs)
    }
}

impl<'a> From<&'a [Object]> for List<'a> {
    fn from(items: &'a [Object]) -> (r: List<'a>) {
        List(items)
    }
}

impl<'a> vstd::std_specs::convert::FromSpecImpl<&'a [Object]> for List<'a> {
    open spec fn obeys_from_spec() -> bool {
        true
    }

    open spec fn from_spec(items: &'a [Object]) -> List<'a> {
        List(items)
    }
}

impl Default for Object {
    fn default() -> (r: Object)
        ensures
            r == Object::Null,
    {
        Object::Null
    }
}

/// Unpacking a value built from a scalar or a text yields that same scalar
/// or text: the view of an unpacked value determines its variant and payload.
pub proof fn lemma_unpack_scalar(u: UnpackedObject, b: bool, n: i64, f: u64, s: Seq<char>)
    ensures
        u@ == Value::Bool(b) ==> u == UnpackedObject::Bool(b),
        u@ == Value::I64(n) ==> u == UnpackedObject::I64(n),
        u@ == Value::F64(f) ==> u == UnpackedObject::F64(f),
        u@ == Value::Buf(s) ==> u is Buf && u->Buf_0@ == s,
        u@ == Value::Null ==> u is Null,
{
}

/// Owning a borrowed view and unpacking the owned copy gives back a tree
/// equal, node for node, to the one that was viewed.
pub proof fn lemma_owned_copy_unpacks_equal(u: UnpackedObject, owned: Object, again: UnpackedObject)
    requires
        owned@ == u@,
        is_unpacked(&owned, again),
    ensures
        again@ == u@,
{
    lemma_unpacked_view(&owned, again);
}

/// A shared view has the model of the value it was taken from.
pub proof fn lemma_unpacked_view(o: &Object, u: UnpackedObject)
    requires
        is_unpacked(o, u),
    ensures
        u@ == o@,
{
}

} // verus!
