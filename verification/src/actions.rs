//! The four skeletal input actions and their binding data.
//!
//! Action handles, action states and suggested bindings are all keyed by
//! the same four actions, so a single enumeration names them and everything
//! else is a mapping from it. The shell creates one runtime action per
//! kind, in the order [`ActionKind::all`] gives, with the names the methods
//! here state, and suggests the bindings that [`SkeletalInputBindings`]
//! pairs with each kind.

use vstd::prelude::*;

verus! {

/// The four skeletal input actions, one per field of the action-state
/// record.
#[derive(Clone, Copy, Debug, PartialEq, Eq, Structural)]
pub enum ActionKind {
    ThumbTouch,
    IndexTouch,
    IndexCurl,
    RestCurl,
}

/// The fixed order in which the actions are created and iterated.
pub open spec fn spec_all_kinds() -> Seq<ActionKind> {
    seq![
        ActionKind::ThumbTouch,
        ActionKind::IndexTouch,
        ActionKind::IndexCurl,
        ActionKind::RestCurl,
    ]
}

impl ActionKind {
    /// All four actions, each exactly once, in creation order.
    pub fn all() -> (r: Vec<ActionKind>)
        ensures
            r@ == spec_all_kinds(),
    {
        let r = vec![
            ActionKind::ThumbTouch,
            ActionKind::IndexTouch,
            ActionKind::IndexCurl,
            ActionKind::RestCurl,
        ];
        assert(r@ =~= spec_all_kinds());
        r
    }

    /// The runtime name under which this action is created.
    pub fn name(&self) -> (r: &'static str)
        ensures
            *self is ThumbTouch ==> r@ == "thumb-touch"@,
            *self is IndexTouch ==> r@ == "index-touch"@,
            *self is IndexCurl ==> r@ == "index-curl"@,
            *self is RestCurl ==> r@ == "rest-curl"@,
    {
        match self {
            ActionKind::ThumbTouch => "thumb-touch",
            ActionKind::IndexTouch => "index-touch",
            ActionKind::IndexCurl => "index-curl",
            ActionKind::RestCurl => "rest-curl",
        }
    }

    /// The human-readable name under which this action is created.
    pub fn localized_name(&self) -> (r: &'static str)
        ensures
            *self is ThumbTouch ==> r@ == "Thumb Touch"@,
            *self is IndexTouch ==> r@ == "Index Touch"@,
            *self is IndexCurl ==> r@ == "Index Curl"@,
            *self is RestCurl ==> r@ == "Rest Curl"@,
    {
        match self {
            ActionKind::ThumbTouch => "Thumb Touch",
            ActionKind::IndexTouch => "Index Touch",
            ActionKind::IndexCurl => "Index Curl",
            ActionKind::RestCurl => "Rest Curl",
        }
    }

    /// Whether the action reads a touch flag; the other two read a curl
    /// magnitude.
    pub fn is_boolean(&self) -> (r: bool)
        ensures
            r == (*self is ThumbTouch || *self is IndexTouch),
    {
        matches!(self, ActionKind::ThumbTouch | ActionKind::IndexTouch)
    }
}

/// The runtime name of the skeletal input action set.
pub fn action_set_name() -> (r: &'static str)
    ensures
        r@ == "xrizer-skeletal-input"@,
{
    "xrizer-skeletal-input"
}

/// The human-readable name of the skeletal input action set.
pub fn action_set_localized_name() -> (r: &'static str)
    ensures
        r@ == "XRizer Skeletal Input"@,
{
    "XRizer Skeletal Input"
}

/// The binding paths one interaction profile suggests for each of the four
/// actions. A path is the runtime's plain integer handle for a resolved
/// path string.
pub struct SkeletalInputBindings {
    pub thumb_touch: Vec<u64>,
    pub index_touch: Vec<u64>,
    pub index_curl: Vec<u64>,
    pub rest_curl: Vec<u64>,
}

impl SkeletalInputBindings {
    /// Every binding path, tagged with the action it binds, in the fixed
    /// action order with each action's paths kept in their given order.
    pub open spec fn pair_seq(self) -> Seq<(ActionKind, u64)> {
        self.thumb_touch@.map_values(|p: u64| (ActionKind::ThumbTouch, p))
            + self.index_touch@.map_values(|p: u64| (ActionKind::IndexTouch, p))
            + self.index_curl@.map_values(|p: u64| (ActionKind::IndexCurl, p))
            + self.rest_curl@.map_values(|p: u64| (ActionKind::RestCurl, p))
    }

    /// Flatten the per-action binding lists into the suggestion list for
    /// one profile: each path paired with its action, nothing dropped,
    /// added, or reordered.
    pub fn binding_pairs(self) -> (r: Vec<(ActionKind, u64)>)
        ensures
            r@ == self.pair_seq(),
    {
        let ghost this = self;
        let mut out: Vec<(ActionKind, u64)> = Vec::new();
        append_tagged(&mut out, ActionKind::ThumbTouch, &self.thumb_touch);
        append_tagged(&mut out, ActionKind::IndexTouch, &self.index_touch);
        append_tagged(&mut out, ActionKind::IndexCurl, &self.index_curl);
        append_tagged(&mut out, ActionKind::RestCurl, &self.rest_curl);
        assert(out@ =~= this.pair_seq());
        out
    }
}

/// Append one action's binding paths, each tagged with that action.
fn append_tagged(out: &mut Vec<(ActionKind, u64)>, kind: ActionKind, paths: &Vec<u64>)
    ensures
        final(out)@ == old(out)@ + paths@.map_values(|p: u64| (kind, p)),
{
    let mut i: usize = 0;
    while i < paths.len()
        invariant
            i <= paths.len(),
            out@ == old(out)@ + paths@.take(i as int).map_values(|p: u64| (kind, p)),
        decreases paths.len() - i,
    {
        let ghost before = out@;
        out.push((kind, paths[i]));
        proof {
            assert(paths@.take(i + 1) =~= paths@.take(i as int).push(paths@[i as int]));
            assert(paths@.take(i + 1).map_values(|p: u64| (kind, p)) =~= paths@.take(
                i as int,
            ).map_values(|p: u64| (kind, p)).push((kind, paths@[i as int])));
        }
        i = i + 1;
    }
    assert(paths@.take(paths@.len() as int) =~= paths@);
}

} // verus!
