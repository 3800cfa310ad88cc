use vstd::prelude::*;

use crate::text::{owned, str_eq};

verus! {

/// Module name and activity name, which identify a dynamic activity, with
/// metadata that travels along with them.
///
/// Only the module name and the activity name take part in the identity; the
/// window name and the additional metadata are information for the layout.
#[derive(Debug)]
pub struct ActivityIdentifier {
    module: String,
    activity: String,
    window_name: Option<String>,
    additional_metadata: Vec<(String, String)>,
}

/// The mathematical content of an `ActivityIdentifier`.
///
/// `metadata` lists the key-value pairs in the order they were set; a later
/// pair overrides an earlier one with the same key.
pub struct IdentifierView {
    pub module: Seq<char>,
    pub activity: Seq<char>,
    pub window_name: Option<Seq<char>>,
    pub metadata: Seq<(Seq<char>, Seq<char>)>,
}

/// The value of `key` in a list of metadata pairs: that of the last pair
/// with that key.
pub open spec fn metadata_value(pairs: Seq<(Seq<char>, Seq<char>)>, key: Seq<char>) -> Option<
    Seq<char>,
>
    decreases pairs.len(),
{
    if pairs.len() == 0 {
        None
    } else if pairs.last().0 == key {
        Some(pairs.last().1)
    } else {
        metadata_value(pairs.drop_last(), key)
    }
}

pub open spec fn pairs_view(v: Seq<(String, String)>) -> Seq<(Seq<char>, Seq<char>)> {
    v.map_values(|p: (String, String)| (p.0@, p.1@))
}

impl View for ActivityIdentifier {
    type V = IdentifierView;

    closed spec fn view(&self) -> IdentifierView {
        IdentifierView {
            module: self.module@,
            activity: self.activity@,
            window_name: match self.window_name {
                Some(w) => Some(w@),
                None => None,
            },
            metadata: pairs_view(self.additional_metadata@),
        }
    }
}

fn copy_pairs(v: &Vec<(String, String)>) -> (r: Vec<(String, String)>)
    ensures
        pairs_view(r@) == pairs_view(v@),
{
    let mut r: Vec<(String, String)> = Vec::new();
    let mut i: usize = 0;
    while i < v.len()
        invariant
            0 <= i <= v@.len(),
            pairs_view(r@) =~= pairs_view(v@.subrange(0, i as int)),
        decreases v@.len() - i,
    {
        let k = v[i].0.clone();
        let val = v[i].1.clone();
        let ghost prev = r@;
        r.push((k, val));
        assert(r@ == prev.push(v@[i as int]));
        assert(pairs_view(r@) =~= pairs_view(prev).push((v@[i as int].0@, v@[i as int].1@)));
        assert(v@.subrange(0, i + 1) =~= v@.subrange(0, i as int).push(v@[i as int]));
        assert(pairs_view(r@) =~= pairs_view(v@.subrange(0, i + 1)));
        i = i + 1;
    }
    assert(v@.subrange(0, v@.len() as int) =~= v@);
    r
}

fn copy_optional(s: &Option<String>) -> (r: Option<String>)
    ensures
        match s {
            Some(w) => r matches Some(c) && c@ == w@,
            None => r is None,
        },
{
    match s {
        Some(w) => Some(w.clone()),
        None => None,
    }
}

impl ActivityIdentifier {
    pub fn new(module_name: &str, activity_name: &str) -> (r: ActivityIdentifier)
        ensures
            r@ == (IdentifierView {
                module: module_name@,
                activity: activity_name@,
                window_name: None,
                metadata: Seq::empty(),
            }),
    {
        let r = ActivityIdentifier {
            module: owned(module_name),
            activity: owned(activity_name),
            window_name: None,
            additional_metadata: Vec::new(),
        };
        assert(pairs_view(r.additional_metadata@) =~= Seq::empty());
        r
    }

    pub fn module(&self) -> (r: &str)
        ensures
            r@ == self@.module,
    {
        self.module.as_str()
    }

    pub fn activity(&self) -> (r: &str)
        ensures
            r@ == self@.activity,
    {
        self.activity.as_str()
    }

    pub fn window_name(&self) -> (r: Option<String>)
        ensures
            match self@.window_name {
                Some(w) => r matches Some(c) && c@ == w,
                None => r is None,
            },
    {
        copy_optional(&self.window_name)
    }

    pub fn set_window_name(&mut self, window_name: &str)
        ensures
            final(self)@ == (IdentifierView { window_name: Some(window_name@), ..old(self)@ }),
    {
        self.window_name = Some(owned(window_name));
    }

    /// Sets `key` to `value`, replacing any earlier value of `key`.
    pub fn set_additional_metadata(&mut self, key: String, value: String)
        ensures
            final(self)@ == (IdentifierView {
                metadata: old(self)@.metadata.push((key@, value@)),
                ..old(self)@
            }),
            metadata_value(final(self)@.metadata, key@) == Some(value@),
    {
        self.additional_metadata.push((key, value));
        assert(pairs_view(self.additional_metadata@) =~= pairs_view(
            old(self).additional_metadata@,
        ).push((key@, value@)));
        assert(pairs_view(self.additional_metadata@).drop_last() =~= pairs_view(
            old(self).additional_metadata@,
        ));
    }

    /// The value last set for `key`, if any.
    pub fn additional_metadata(&self, key: &str) -> (r: Option<String>)
        ensures
            match metadata_value(self@.metadata, key@) {
                Some(v) => r matches Some(c) && c@ == v,
                None => r is None,
            },
    {
        let ghost pairs = self@.metadata;
        let mut i: usize = self.additional_metadata.len();
        assert(pairs.subrange(0, i as int) =~= pairs);
        while i > 0
            invariant
                0 <= i <= self.additional_metadata@.len(),
                pairs == pairs_view(self.additional_metadata@),
                metadata_value(pairs, key@) == metadata_value(pairs.subrange(0, i as int), key@),
            decreases i,
        {
            let ghost prefix = pairs.subrange(0, i as int);
            assert(prefix.drop_last() =~= pairs.subrange(0, i - 1));
            if str_eq(self.additional_metadata[i - 1].0.as_str(), key) {
                return Some(self.additional_metadata[i - 1].1.clone());
            }
            i = i - 1;
        }
        assert(pairs.subrange(0, 0).len() == 0);
        None
    }

    /// The metadata pairs in the order they were set.
    pub fn metadata_entries(&self) -> (r: &[(String, String)])
        ensures
            pairs_view(r@) == self@.metadata,
    {
        self.additional_metadata.as_slice()
    }

    /// Whether both identify the same activity: same module and same activity
    /// name, whatever the metadata.
    pub fn same_activity(&self, other: &ActivityIdentifier) -> (r: bool)
        ensures
            r == (self@.module == other@.module && self@.activity == other@.activity),
    {
        self.module == other.module && self.activity == other.activity
    }

    /// A copy of the identifier, metadata included.
    pub fn duplicate(&self) -> (r: ActivityIdentifier)
        ensures
            r@ == self@,
    {
        ActivityIdentifier {
            module: self.module.clone(),
            activity: self.activity.clone(),
            window_name: copy_optional(&self.window_name),
            additional_metadata: copy_pairs(&self.additional_metadata),
        }
    }

    /// The identifier as text: `activity@module`.
    pub fn to_display_string(&self) -> (r: String)
        ensures
            r@ == self@.activity + "@"@ + self@.module,
    {
        let r = self.activity.clone();
        let r = r.concat("@");
        r.concat(self.module.as_str())
    }
}

} // verus!
