use vstd::prelude::*;

verus! {

/// What a material binding holds: a texture view or a sampler, both seen by
/// the fragment stage.
#[derive(Clone, Copy, Debug, PartialEq, Eq, Structural)]
pub enum MaterialBindingKind {
    View,
    Sampler,
}

/// One entry of a material bind group layout.
#[derive(Clone, Copy, Debug, PartialEq, Eq, Structural)]
pub struct MaterialBinding {
    pub binding: u32,
    pub kind: MaterialBindingKind,
}

/// `entries` with one more entry of `kind`, bound at the next slot.
pub open spec fn pushed(entries: Seq<MaterialBinding>, kind: MaterialBindingKind) -> Seq<MaterialBinding> {
    entries.push(MaterialBinding { binding: entries.len() as u32, kind })
}

/// `entries` with `n` more pairs of a view and a sampler.
pub open spec fn pushed_views_and_samplers(entries: Seq<MaterialBinding>, n: nat) -> Seq<MaterialBinding>
    decreases n,
{
    if n == 0 {
        entries
    } else {
        let before = pushed_views_and_samplers(entries, (n - 1) as nat);
        pushed(pushed(before, MaterialBindingKind::View), MaterialBindingKind::Sampler)
    }
}

/// Whether each entry is bound at its own position.
pub open spec fn numbered_by_position(entries: Seq<MaterialBinding>) -> bool {
    forall|k: int| 0 <= k < entries.len() ==> (#[trigger] entries[k]).binding == k
}

/// Collects the entries of a material bind group layout; the GPU layout is
/// created from them.
#[derive(Clone, Debug)]
pub struct MaterialBindGroupLayoutBuilder<'label> {
    label: Option<&'label str>,
    entries: Vec<MaterialBinding>,
}

impl<'label> Default for MaterialBindGroupLayoutBuilder<'label> {
    fn default() -> (b: Self)
        ensures
            b.label_view() is None,
            b.entries_view() == Seq::<MaterialBinding>::empty(),
    {
        MaterialBindGroupLayoutBuilder { label: None, entries: Vec::new() }
    }
}

impl<'label> MaterialBindGroupLayoutBuilder<'label> {
    /// The label, if one was set.
    pub closed spec fn label_view(&self) -> Option<Seq<char>> {
        match self.label {
            Some(l) => Some(l@),
            None => None,
        }
    }

    /// The entries pushed so far, in order.
    pub closed spec fn entries_view(&self) -> Seq<MaterialBinding> {
        self.entries@
    }

    /// Sets the label of the layout.
    pub fn set_label(&mut self, label: &'label str) -> (b: &mut Self)
        ensures
            b.label_view() == Some(label@),
            b.entries_view() == old(self).entries_view(),
            *final(self) == *final(b),
    {
        self.label = Some(label);
        self
    }

    /// Adds a texture view at the next binding.
    pub fn push_view(&mut self) -> (b: &mut Self)
        ensures
            b.label_view() == old(self).label_view(),
            b.entries_view() == pushed(old(self).entries_view(), MaterialBindingKind::View),
            *final(self) == *final(b),
    {
        let binding = self.entries.len() as u32;
        self.entries.push(MaterialBinding { binding, kind: MaterialBindingKind::View });
        self
    }

    /// Adds a sampler at the next binding.
    pub fn push_sampler(&mut self) -> (b: &mut Self)
        ensures
            b.label_view() == old(self).label_view(),
            b.entries_view() == pushed(old(self).entries_view(), MaterialBindingKind::Sampler),
            *final(self) == *final(b),
    {
        let binding = self.entries.len() as u32;
        self.entries.push(MaterialBinding { binding, kind: MaterialBindingKind::Sampler });
        self
    }

    /// Adds a texture view and then a sampler.
    pub fn push_view_and_sampler(&mut self) -> (b: &mut Self)
        ensures
            b.label_view() == old(self).label_view(),
            b.entries_view() == pushed(
                pushed(old(self).entries_view(), MaterialBindingKind::View),
                MaterialBindingKind::Sampler,
            ),
            *final(self) == *final(b),
    {
        self.push_view();
        self.push_sampler();
        self
    }

    /// Adds `n` pairs of a texture view and a sampler.
    pub fn push_many_views_and_samplers(&mut self, n: usize) -> (b: &mut Self)
        ensures
            b.label_view() == old(self).label_view(),
            b.entries_view() == pushed_views_and_samplers(old(self).entries_view(), n as nat),
            *final(self) == *final(b),
    {
        let ghost start = self.entries@;
        let mut i: usize = 0;
        while i < n
            invariant
                0 <= i <= n,
                self.label_view() == old(self).label_view(),
                start == old(self).entries_view(),
                self.entries@ == pushed_views_and_samplers(start, i as nat),
            decreases n - i,
        {
            self.push_view_and_sampler();
            i = i + 1;
        }
        self
    }

    /// The label, for creating the layout.
    pub fn label(&self) -> (l: Option<&'label str>)
        ensures
            match l {
                Some(s) => self.label_view() == Some(s@),
                None => self.label_view() is None,
            },
    {
        self.label
    }

    /// The entries, for creating the layout.
    pub fn entries(&self) -> (e: &[MaterialBinding])
        ensures
            e@ == self.entries_view(),
    {
        self.entries.as_slice()
    }
}

/// Entries pushed one by one are bound at their own positions, as long as
/// the positions fit a binding number.
pub proof fn law_pushed_entries_are_numbered(entries: Seq<MaterialBinding>, n: nat)
    requires
        numbered_by_position(entries),
        entries.len() + 2 * n <= u32::MAX + 1,
    ensures
        numbered_by_position(pushed_views_and_samplers(entries, n)),
        pushed_views_and_samplers(entries, n).len() == entries.len() + 2 * n,
        forall|k: int| entries.len() <= k < entries.len() + 2 * n ==>
            (#[trigger] pushed_views_and_samplers(entries, n)[k]).kind == (if (k - entries.len()) % 2 == 0 {
                MaterialBindingKind::View
            } else {
                MaterialBindingKind::Sampler
            }),
        pushed_views_and_samplers(entries, n).subrange(0, entries.len() as int) == entries,
    decreases n,
{
    if n > 0 {
        let m = (n - 1) as nat;
        law_pushed_entries_are_numbered(entries, m);
        let before = pushed_views_and_samplers(entries, m);
        let mid = pushed(before, MaterialBindingKind::View);
        let after = pushed(mid, MaterialBindingKind::Sampler);
        assert(after.subrange(0, entries.len() as int) =~= before.subrange(0, entries.len() as int));
        assert forall|k: int| entries.len() <= k < entries.len() + 2 * n implies
            (#[trigger] after[k]).kind == (if (k - entries.len()) % 2 == 0 {
                MaterialBindingKind::View
            } else {
                MaterialBindingKind::Sampler
            }) by {
            if k < before.len() {
                assert(after[k] == before[k]);
            }
        }
    }
}

} // verus!
