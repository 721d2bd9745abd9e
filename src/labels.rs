use vstd::prelude::*;

verus! {

/// What a sprite is, read from the start of its label.
#[derive(Clone, Copy, Debug, PartialEq, Eq, Structural)]
pub enum EntityKind {
    Roadline,
    Obstacle,
    Player,
    Scenery,
}

/// `s` begins with `p`.
pub open spec fn has_prefix(s: Seq<char>, p: Seq<char>) -> bool {
    p.len() <= s.len() && s.subrange(0, p.len() as int) == p
}

/// The kind named by a label: the prefixes "roadline", "obstacle" and
/// "player" are tried in that order.
pub open spec fn kind_of(label: Seq<char>) -> EntityKind {
    if has_prefix(label, "roadline"@) {
        EntityKind::Roadline
    } else if has_prefix(label, "obstacle"@) {
        EntityKind::Obstacle
    } else if has_prefix(label, "player"@) {
        EntityKind::Player
    } else {
        EntityKind::Scenery
    }
}

/// The label of the one sprite that the keyboard steers.
pub open spec fn is_player_label(label: Seq<char>) -> bool {
    label == "player"@
}

/// Whether `s` begins with `p`, compared character by character.
pub fn starts_with(s: &str, p: &str) -> (r: bool)
    ensures
        r == has_prefix(s@, p@),
{
    let n = p.unicode_len();
    let m = s.unicode_len();
    if n > m {
        return false;
    }
    let mut i: usize = 0;
    while i < n
        invariant
            i <= n <= m,
            n == p@.len(),
            m == s@.len(),
            forall|k: int| 0 <= k < i ==> s@[k] == p@[k],
        decreases n - i,
    {
        if s.get_char(i) != p.get_char(i) {
            assert(s@.subrange(0, n as int)[i as int] != p@[i as int]);
            return false;
        }
        i = i + 1;
    }
    assert(s@.subrange(0, n as int) =~= p@);
    true
}

/// The kind of a sprite with the given label.
pub fn entity_kind(label: &str) -> (k: EntityKind)
    ensures
        k == kind_of(label@),
{
    if starts_with(label, "roadline") {
        EntityKind::Roadline
    } else if starts_with(label, "obstacle") {
        EntityKind::Obstacle
    } else if starts_with(label, "player") {
        EntityKind::Player
    } else {
        EntityKind::Scenery
    }
}

/// Whether the label is exactly the player's.
pub fn names_player(label: &str) -> (r: bool)
    ensures
        r == is_player_label(label@),
{
    let p = "player";
    if !starts_with(label, p) {
        proof {
            if label@ == p@ {
                assert(label@.subrange(0, p@.len() as int) =~= p@);
            }
        }
        return false;
    }
    let same_len = label.unicode_len() == p.unicode_len();
    proof {
        if same_len {
            assert(label@ =~= label@.subrange(0, p@.len() as int));
        }
    }
    same_len
}

/// The player's label names the player kind, not a roadline or an obstacle.
pub proof fn lemma_player_label_kind(label: Seq<char>)
    requires
        is_player_label(label),
    ensures
        kind_of(label) == EntityKind::Player,
{
    reveal_strlit("player");
    reveal_strlit("roadline");
    reveal_strlit("obstacle");
    assert(has_prefix(label, "player"@)) by {
        assert(label.subrange(0, 6) =~= label);
    }
}

} // verus!
