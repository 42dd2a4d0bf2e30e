use vstd::prelude::*;

use crate::event::{copy_ids, EndpointId, NodeDescriptor};

verus! {

/// Strictly increasing, hence free of duplicates.
pub open spec fn sorted(s: Seq<EndpointId>) -> bool {
    forall|i: int, j: int| 0 <= i < j < s.len() ==> s[i] < s[j]
}

/// `s` with `x` added at its place in the order; `s` itself when `x` is
/// already there.
pub open spec fn insert_sorted(s: Seq<EndpointId>, x: EndpointId) -> Seq<EndpointId>
    decreases s.len(),
{
    if s.len() == 0 {
        seq![x]
    } else if x < s[0] {
        seq![x] + s
    } else if x == s[0] {
        s
    } else {
        seq![s[0]] + insert_sorted(s.drop_first(), x)
    }
}

/// The writer list of a node: the parameter-events writer, then the log
/// writer when there is one, then the writers created by the user.
pub open spec fn descriptor_writers(
    parameter_events_writer: EndpointId,
    rosout_writer: Option<EndpointId>,
    writers: Seq<EndpointId>,
) -> Seq<EndpointId> {
    seq![parameter_events_writer] + match rosout_writer {
        Some(w) => seq![w],
        None => Seq::<EndpointId>::empty(),
    } + writers
}

/// Inserting at the first position whose element is not below `x` is
/// `insert_sorted`.
proof fn lemma_insert_at(s: Seq<EndpointId>, x: EndpointId, idx: int)
    requires
        sorted(s),
        0 <= idx <= s.len(),
        forall|j: int| 0 <= j < idx ==> s[j] < x,
        idx < s.len() ==> x <= s[idx],
    ensures
        insert_sorted(s, x) == if idx < s.len() && s[idx] == x {
            s
        } else {
            s.insert(idx, x)
        },
    decreases s.len(),
{
    if s.len() == 0 {
        assert(s.insert(0, x) =~= seq![x]);
    } else if idx == 0 {
        if x < s[0] {
            assert(s.insert(0, x) =~= seq![x] + s);
        }
    } else {
        let t = s.drop_first();
        assert forall|j: int| 0 <= j < idx - 1 implies t[j] < x by {
            assert(t[j] == s[j + 1]);
        }
        lemma_insert_at(t, x, idx - 1);
        if idx < s.len() && s[idx] == x {
            assert(seq![s[0]] + t =~= s);
        } else {
            assert(seq![s[0]] + t.insert(idx - 1, x) =~= s.insert(idx, x));
        }
    }
}

/// Adding an id that is already present changes nothing.
pub proof fn lemma_insert_sorted_present(s: Seq<EndpointId>, x: EndpointId)
    requires
        sorted(s),
        s.contains(x),
    ensures
        insert_sorted(s, x) == s,
    decreases s.len(),
{
    if x != s[0] {
        let t = s.drop_first();
        let k = choose|k: int| 0 <= k < s.len() && s[k] == x;
        assert(k > 0);
        assert(t[k - 1] == x);
        assert(x > s[0]);
        lemma_insert_sorted_present(t, x);
        assert(seq![s[0]] + t =~= s);
    }
}

/// After an insertion the id is present.
pub proof fn lemma_insert_sorted_contains(s: Seq<EndpointId>, x: EndpointId)
    ensures
        insert_sorted(s, x).contains(x),
    decreases s.len(),
{
    if s.len() == 0 {
        assert(seq![x][0] == x);
    } else if x < s[0] {
        assert((seq![x] + s)[0] == x);
    } else if x == s[0] {
        assert(s[0] == x);
    } else {
        let t = s.drop_first();
        lemma_insert_sorted_contains(t, x);
        let k = choose|k: int| 0 <= k < insert_sorted(t, x).len() && insert_sorted(t, x)[k] == x;
        assert((seq![s[0]] + insert_sorted(t, x))[k + 1] == x);
    }
}

/// Adds `x` to the sorted vector `v` unless it is already there.
fn insert_id(v: &mut Vec<EndpointId>, x: EndpointId)
    requires
        sorted(old(v)@),
    ensures
        sorted(final(v)@),
        final(v)@ == insert_sorted(old(v)@, x),
{
    let mut i: usize = 0;
    while i < v.len() && v[i] < x
        invariant
            v@ == old(v)@,
            0 <= i <= v.len(),
            forall|j: int| 0 <= j < i ==> v@[j] < x,
        decreases v.len() - i,
    {
        i = i + 1;
    }
    proof {
        lemma_insert_at(v@, x, i as int);
    }
    if i < v.len() && v[i] == x {
        return;
    }
    v.insert(i, x);
    assert(sorted(v@)) by {
        assert forall|a: int, b: int| 0 <= a < b < v@.len() implies v@[a] < v@[b] by {
            if b < i {
            } else if b == i {
            } else if a < i {
                assert(v@[b] == old(v)@[b - 1]);
            } else if a == i {
                assert(v@[b] == old(v)@[b - 1]);
            } else {
                assert(v@[a] == old(v)@[a - 1]);
                assert(v@[b] == old(v)@[b - 1]);
            }
        }
    }
}

/// The endpoints created by one node. Both sets only grow.
pub struct EntityRegistry {
    name: String,
    namespace: String,
    parameter_events_writer: EndpointId,
    rosout_writer: Option<EndpointId>,
    readers: Vec<EndpointId>,
    writers: Vec<EndpointId>,
}

impl EntityRegistry {
    pub closed spec fn name_view(&self) -> Seq<char> {
        self.name@
    }

    pub closed spec fn namespace_view(&self) -> Seq<char> {
        self.namespace@
    }

    pub closed spec fn parameter_events_writer_view(&self) -> EndpointId {
        self.parameter_events_writer
    }

    pub closed spec fn rosout_writer_view(&self) -> Option<EndpointId> {
        self.rosout_writer
    }

    /// The registered readers, in increasing order.
    pub closed spec fn readers_view(&self) -> Seq<EndpointId> {
        self.readers@
    }

    /// The registered writers, in increasing order.
    pub closed spec fn writers_view(&self) -> Seq<EndpointId> {
        self.writers@
    }

    pub open spec fn wf(&self) -> bool {
        sorted(self.readers_view()) && sorted(self.writers_view())
    }

    /// A registry with no user endpoints yet.
    pub fn new(
        name: String,
        namespace: String,
        parameter_events_writer: EndpointId,
        rosout_writer: Option<EndpointId>,
    ) -> (r: EntityRegistry)
        ensures
            r.wf(),
            r.name_view() == name@,
            r.namespace_view() == namespace@,
            r.parameter_events_writer_view() == parameter_events_writer,
            r.rosout_writer_view() == rosout_writer,
            r.readers_view() == Seq::<EndpointId>::empty(),
            r.writers_view() == Seq::<EndpointId>::empty(),
    {
        EntityRegistry {
            name,
            namespace,
            parameter_events_writer,
            rosout_writer,
            readers: Vec::new(),
            writers: Vec::new(),
        }
    }

    pub fn name(&self) -> (r: &str)
        ensures
            r@ == self.name_view(),
    {
        self.name.as_str()
    }

    pub fn namespace(&self) -> (r: &str)
        ensures
            r@ == self.namespace_view(),
    {
        self.namespace.as_str()
    }

    /// Records a reader created by this node; a second call with the same
    /// id changes nothing.
    pub fn add_reader(&mut self, reader: EndpointId)
        requires
            old(self).wf(),
        ensures
            final(self).wf(),
            final(self).readers_view() == insert_sorted(old(self).readers_view(), reader),
            final(self).writers_view() == old(self).writers_view(),
            final(self).name_view() == old(self).name_view(),
            final(self).namespace_view() == old(self).namespace_view(),
            final(self).parameter_events_writer_view() == old(self).parameter_events_writer_view(),
            final(self).rosout_writer_view() == old(self).rosout_writer_view(),
    {
        insert_id(&mut self.readers, reader);
    }

    /// Records a writer created by this node; a second call with the same
    /// id changes nothing.
    pub fn add_writer(&mut self, writer: EndpointId)
        requires
            old(self).wf(),
        ensures
            final(self).wf(),
            final(self).writers_view() == insert_sorted(old(self).writers_view(), writer),
            final(self).readers_view() == old(self).readers_view(),
            final(self).name_view() == old(self).name_view(),
            final(self).namespace_view() == old(self).namespace_view(),
            final(self).parameter_events_writer_view() == old(self).parameter_events_writer_view(),
            final(self).rosout_writer_view() == old(self).rosout_writer_view(),
    {
        insert_id(&mut self.writers, writer);
    }

    /// The descriptor of the node: every registered reader, and the
    /// built-in writers followed by every registered writer.
    pub fn generate_node_info(&self) -> (r: NodeDescriptor)
        ensures
            r.name@ == self.name_view(),
            r.namespace@ == self.namespace_view(),
            r.reader_ids@ == self.readers_view(),
            r.writer_ids@ == descriptor_writers(
                self.parameter_events_writer_view(),
                self.rosout_writer_view(),
                self.writers_view(),
            ),
    {
        let mut writer_ids: Vec<EndpointId> = Vec::new();
        writer_ids.push(self.parameter_events_writer);
        match self.rosout_writer {
            Some(w) => writer_ids.push(w),
            None => {},
        }
        let ghost prefix = writer_ids@;
        let mut i: usize = 0;
        while i < self.writers.len()
            invariant
                0 <= i <= self.writers.len(),
                writer_ids@ == prefix + self.writers@.subrange(0, i as int),
            decreases self.writers.len() - i,
        {
            writer_ids.push(self.writers[i]);
            i = i + 1;
            assert(writer_ids@ =~= prefix + self.writers@.subrange(0, i as int));
        }
        assert(self.writers@.subrange(0, i as int) =~= self.writers@);
        assert(writer_ids@ =~= descriptor_writers(
            self.parameter_events_writer,
            self.rosout_writer,
            self.writers@,
        ));
        NodeDescriptor {
            name: self.name.clone(),
            namespace: self.namespace.clone(),
            reader_ids: copy_ids(&self.readers),
            writer_ids,
        }
    }
}

/// Every element of an insertion result is the inserted id or was there.
proof fn lemma_insert_sorted_elements(s: Seq<EndpointId>, x: EndpointId)
    ensures
        forall|y: EndpointId| #[trigger]
            insert_sorted(s, x).contains(y) ==> y == x || s.contains(y),
    decreases s.len(),
{
    if s.len() > 0 && x > s[0] {
        let t = s.drop_first();
        lemma_insert_sorted_elements(t, x);
        assert forall|y: EndpointId| #[trigger]
            insert_sorted(s, x).contains(y) implies y == x || s.contains(y) by {
            let k = choose|k: int| 0 <= k < insert_sorted(s, x).len() && insert_sorted(s, x)[k] == y;
            if k > 0 {
                assert(insert_sorted(t, x)[k - 1] == y);
                assert(insert_sorted(t, x).contains(y));
                if t.contains(y) {
                    let m = choose|m: int| 0 <= m < t.len() && t[m] == y;
                    assert(s[m + 1] == y);
                }
            } else {
                assert(s[0] == y);
            }
        }
    } else if s.len() > 0 && x < s[0] {
        assert forall|y: EndpointId| #[trigger]
            insert_sorted(s, x).contains(y) implies y == x || s.contains(y) by {
            let k = choose|k: int| 0 <= k < insert_sorted(s, x).len() && insert_sorted(s, x)[k] == y;
            if k > 0 {
                assert(s[k - 1] == y);
            }
        }
    }
}

/// Insertion keeps a sorted sequence sorted.
proof fn lemma_insert_sorted_sorted(s: Seq<EndpointId>, x: EndpointId)
    requires
        sorted(s),
    ensures
        sorted(insert_sorted(s, x)),
    decreases s.len(),
{
    if s.len() > 0 && x > s[0] {
        let t = s.drop_first();
        lemma_insert_sorted_sorted(t, x);
        lemma_insert_sorted_elements(t, x);
        let r = insert_sorted(t, x);
        assert forall|i: int, j: int| 0 <= i < j < insert_sorted(s, x).len() implies
            insert_sorted(s, x)[i] < insert_sorted(s, x)[j] by {
            if i == 0 {
                assert(r.contains(r[j - 1]));
                if t.contains(r[j - 1]) {
                    let m = choose|m: int| 0 <= m < t.len() && t[m] == r[j - 1];
                    assert(s[m + 1] == r[j - 1]);
                }
            } else {
                assert(insert_sorted(s, x)[i] == r[i - 1]);
                assert(insert_sorted(s, x)[j] == r[j - 1]);
            }
        }
    } else if s.len() > 0 && x < s[0] {
        assert forall|i: int, j: int| 0 <= i < j < insert_sorted(s, x).len() implies
            insert_sorted(s, x)[i] < insert_sorted(s, x)[j] by {
            if i > 0 {
                assert(insert_sorted(s, x)[i] == s[i - 1]);
            }
            assert(insert_sorted(s, x)[j] == s[j - 1]);
        }
    }
}

/// Registering the same endpoint twice leaves the registered sequence, and
/// so the node's descriptor, as the first registration left it.
pub proof fn lemma_register_idempotent(s: Seq<EndpointId>, x: EndpointId)
    requires
        sorted(s),
    ensures
        insert_sorted(insert_sorted(s, x), x) == insert_sorted(s, x),
{
    lemma_insert_sorted_sorted(s, x);
    lemma_insert_sorted_contains(s, x);
    lemma_insert_sorted_present(insert_sorted(s, x), x);
}

} // verus!
