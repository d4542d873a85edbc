use vstd::prelude::*;

verus! {

/// Where a per-vertex channel binds in a shader, and what it is called.
#[derive(Debug, Clone)]
pub struct AttributeDescriptor {
    /// The index (location) of the attribute
    pub index: usize,
    /// A human-readable label for the attribute
    pub label: String,
}

impl AttributeDescriptor {
    /// Create a new descriptor from a slot index and a label.
    pub fn new(index: usize, label: &str) -> (d: AttributeDescriptor)
        ensures
            d.index == index,
            d.label@ == label@,
    {
        AttributeDescriptor { index, label: label.to_owned() }
    }
}

/// One channel of per-vertex values (position, color, normal, width, ...),
/// in vertex order, with the slot and label it binds to.
#[derive(Debug, Clone)]
pub struct AttributeArray<T> {
    /// The values of this channel, one per vertex
    pub local_buffer: Vec<T>,
    /// Slot and label of this channel
    pub descriptor: AttributeDescriptor,
}

impl<T> AttributeArray<T> {
    /// Create an empty channel bound to the given slot.
    pub fn new(index: usize, label: &str) -> (a: AttributeArray<T>)
        ensures
            a.local_buffer@ == Seq::<T>::empty(),
            a.descriptor.index == index,
            a.descriptor.label@ == label@,
    {
        AttributeArray { local_buffer: Vec::new(), descriptor: AttributeDescriptor::new(index, label) }
    }

    /// Create an empty channel whose buffer has room for `capacity` values.
    pub fn with_capacity(index: usize, label: &str, capacity: usize) -> (a: AttributeArray<T>)
        ensures
            a.local_buffer@ == Seq::<T>::empty(),
            a.descriptor.index == index,
            a.descriptor.label@ == label@,
    {
        AttributeArray {
            local_buffer: Vec::with_capacity(capacity),
            descriptor: AttributeDescriptor::new(index, label),
        }
    }

    /// Number of values stored in this channel.
    pub fn len(&self) -> (n: usize)
        ensures
            n == self.local_buffer.len(),
    {
        self.local_buffer.len()
    }

    /// The channel's label.
    pub fn label(&self) -> (s: &str)
        ensures
            s@ == self.descriptor.label@,
    {
        self.descriptor.label.as_str()
    }
}

/// Whether all entries of `s` are equal.
pub open spec fn all_same(s: Seq<usize>) -> bool {
    forall|i: int| 0 <= i < s.len() ==> #[trigger] s[i] == s[0]
}

/// The vertex count of a set of channels with the given lengths: the common
/// length when there is at least one channel and all agree, else nothing.
pub fn retrieve_vertex_count(lengths: &[usize]) -> (count: Option<usize>)
    ensures
        count == (if lengths@.len() > 0 && all_same(lengths@) {
            Some(lengths@[0])
        } else {
            None::<usize>
        }),
{
    if lengths.len() == 0 {
        return None;
    }
    let first = lengths[0];
    let mut i: usize = 1;
    while i < lengths.len()
        invariant
            1 <= i <= lengths@.len(),
            first == lengths@[0],
            forall|j: int| 0 <= j < i ==> lengths@[j] == first,
        decreases lengths@.len() - i,
    {
        if lengths[i] != first {
            return None;
        }
        i = i + 1;
    }
    Some(first)
}

/// Element type of a channel attached at run time, stored beside its label so
/// that a lookup asking for another type fails cleanly.
#[derive(Debug, Clone, Copy, PartialEq, Eq, Structural)]
pub enum ElementKind {
    /// One float per vertex
    Scalar,
    /// Three floats per vertex
    Vector3,
}

/// Why a lookup of a channel attached at run time failed.
#[derive(Debug, Clone, Copy, PartialEq, Eq, Structural)]
pub enum AttributeLookupError {
    /// No channel carries the label
    NotFound,
    /// The first channel with the label stores another element type
    TypeMismatch,
}

/// A channel attached at run time: its slot, label and element type.
#[derive(Debug, Clone)]
pub struct DynamicAttribute {
    pub descriptor: AttributeDescriptor,
    pub kind: ElementKind,
}

/// Number of fixed channels (position, color, normal) that precede the
/// channels attached at run time.
pub const FIXED_CHANNELS: usize = 3;

/// The channels attached to a geometry at run time, in the order they were
/// added, each tagged with its element type.
#[derive(Debug)]
pub struct AttributeRegistry {
    entries: Vec<DynamicAttribute>,
}

/// Position of the first entry labelled `label`, if any.
pub open spec fn first_with_label(entries: Seq<DynamicAttribute>, label: Seq<char>) -> Option<int>
    decreases entries.len(),
{
    if entries.len() == 0 {
        None
    } else if entries[0].descriptor.label@ == label {
        Some(0)
    } else {
        match first_with_label(entries.drop_first(), label) {
            Some(i) => Some(i + 1),
            None => None,
        }
    }
}

/// Result of looking up `label` with element type `kind` among `entries`.
pub open spec fn lookup_result(
    entries: Seq<DynamicAttribute>,
    label: Seq<char>,
    kind: ElementKind,
) -> Result<usize, AttributeLookupError> {
    match first_with_label(entries, label) {
        None => Err(AttributeLookupError::NotFound),
        Some(i) => if entries[i].kind == kind {
            Ok(i as usize)
        } else {
            Err(AttributeLookupError::TypeMismatch)
        },
    }
}

proof fn lemma_first_with_label_at(entries: Seq<DynamicAttribute>, label: Seq<char>, i: int)
    requires
        0 <= i < entries.len(),
        entries[i].descriptor.label@ == label,
        forall|j: int| 0 <= j < i ==> (#[trigger] entries[j]).descriptor.label@ != label,
    ensures
        first_with_label(entries, label) == Some(i),
    decreases i,
{
    if i > 0 {
        let rest = entries.drop_first();
        assert forall|j: int| 0 <= j < i - 1 implies (#[trigger] rest[j]).descriptor.label@
            != label by {
            assert(rest[j] == entries[j + 1]);
        }
        lemma_first_with_label_at(rest, label, i - 1);
    }
}

impl AttributeRegistry {
    /// The entries, in the order they were added.
    pub closed spec fn entries(&self) -> Seq<DynamicAttribute> {
        self.entries@
    }

    /// A registry with no channels.
    pub fn new() -> (r: AttributeRegistry)
        ensures
            r.entries() == Seq::<DynamicAttribute>::empty(),
    {
        AttributeRegistry { entries: Vec::new() }
    }

    /// Number of channels attached so far.
    pub fn len(&self) -> (n: usize)
        ensures
            n == self.entries().len(),
    {
        self.entries.len()
    }

    /// The slot the next attached channel binds to: after the fixed channels
    /// and those attached before it.
    pub fn next_index(&self) -> (i: usize)
        requires
            self.entries().len() + FIXED_CHANNELS <= usize::MAX,
        ensures
            i == self.entries().len() + FIXED_CHANNELS,
    {
        self.entries.len() + FIXED_CHANNELS
    }

    /// Attach a channel with the given label and element type at the next slot.
    pub fn add_attr(&mut self, label: &str, kind: ElementKind)
        requires
            old(self).entries().len() + FIXED_CHANNELS <= usize::MAX,
        ensures
            final(self).entries().len() == old(self).entries().len() + 1,
            final(self).entries().take(old(self).entries().len() as int) == old(self).entries(),
            final(self).entries().last().descriptor.index == old(self).entries().len()
                + FIXED_CHANNELS,
            final(self).entries().last().descriptor.label@ == label@,
            final(self).entries().last().kind == kind,
    {
        let index = self.next_index();
        self.entries.push(DynamicAttribute { descriptor: AttributeDescriptor::new(index, label), kind });
        proof {
            assert(self.entries@.take(old(self).entries@.len() as int) =~= old(self).entries@);
        }
    }

    /// Find the channel labelled `label` and check that it stores `kind`:
    /// its position among the attached channels, or why there is none.
    pub fn attr_by_label(&self, label: &str, kind: ElementKind) -> (r: Result<
        usize,
        AttributeLookupError,
    >)
        ensures
            r == lookup_result(self.entries(), label@, kind),
    {
        let wanted: String = label.to_owned();
        let mut i: usize = 0;
        while i < self.entries.len()
            invariant
                wanted@ == label@,
                i <= self.entries@.len(),
                forall|j: int|
                    0 <= j < i ==> (#[trigger] self.entries@[j]).descriptor.label@ != label@,
            decreases self.entries@.len() - i,
        {
            if self.entries[i].descriptor.label == wanted {
                proof {
                    lemma_first_with_label_at(self.entries@, label@, i as int);
                }
                if self.entries[i].kind == kind {
                    return Ok(i);
                } else {
                    return Err(AttributeLookupError::TypeMismatch);
                }
            }
            i = i + 1;
        }
        proof {
            lemma_no_label(self.entries@, label@);
        }
        Err(AttributeLookupError::NotFound)
    }
}

proof fn lemma_no_label(entries: Seq<DynamicAttribute>, label: Seq<char>)
    requires
        forall|j: int| 0 <= j < entries.len() ==> (#[trigger] entries[j]).descriptor.label@ != label,
    ensures
        first_with_label(entries, label) is None,
    decreases entries.len(),
{
    if entries.len() > 0 {
        let rest = entries.drop_first();
        assert forall|j: int| 0 <= j < rest.len() implies (#[trigger] rest[j]).descriptor.label@
            != label by {
            assert(rest[j] == entries[j + 1]);
        }
        lemma_no_label(rest, label);
    }
}

} // verus!
