use vstd::prelude::*;

verus! {

/// The binding groups a pipeline knows about. The ordinal of each variant is
/// the group number that shader text writes as `@group(N)`, so the order of
/// the variants must never change.
#[derive(Debug, Clone, Copy, PartialEq, Eq, Structural)]
pub enum GroupIndex {
    Scalars,
    Textures,
}

impl GroupIndex {
    /// The group slot number of this group.
    pub open spec fn ordinal(self) -> nat {
        match self {
            GroupIndex::Scalars => 0,
            GroupIndex::Textures => 1,
        }
    }

    /// The group slot number, as handed to the graphics API.
    pub fn index(&self) -> (r: u32)
        ensures
            r as nat == self.ordinal(),
    {
        match self {
            GroupIndex::Scalars => 0,
            GroupIndex::Textures => 1,
        }
    }

    /// The diagnostic name of this group.
    pub open spec fn name_spec(self) -> Seq<char> {
        match self {
            GroupIndex::Scalars => seq!['S', 'c', 'a', 'l', 'a', 'r', 's'],
            GroupIndex::Textures => seq!['T', 'e', 'x', 't', 'u', 'r', 'e', 's'],
        }
    }
}

/// All groups, in ordinal order.
pub open spec fn all_groups() -> Seq<GroupIndex> {
    seq![GroupIndex::Scalars, GroupIndex::Textures]
}

/// The diagnostic name of a group, as used in labels of GPU objects.
pub fn group_names(index: GroupIndex) -> (r: &'static str)
    ensures
        r@ == index.name_spec(),
{
    match index {
        GroupIndex::Scalars => {
            let s = "Scalars";
            proof {
                reveal_strlit("Scalars");
            }
            s
        },
        GroupIndex::Textures => {
            let s = "Textures";
            proof {
                reveal_strlit("Textures");
            }
            s
        },
    }
}

} // verus!
