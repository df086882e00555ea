//! Keys of the store: a flat string, or an environment and an application
//! joined by a separator.

use vstd::prelude::*;

verus! {

/// The character that joins environment and application in a key.
pub open spec fn separator() -> char {
    '/'
}

/// The key under which the configuration of `app` in `env` is stored.
pub open spec fn composed(env: Seq<char>, app: Seq<char>) -> Seq<char> {
    env + seq![separator()] + app
}

/// A segment that holds no separator.
pub open spec fn plain(segment: Seq<char>) -> bool {
    forall|i: int| 0 <= i < segment.len() ==> segment[i] != separator()
}

/// Joins `env` and `app` into one key. Neither segment is escaped or
/// checked.
pub fn compose_key(env: &str, app: &str) -> (key: String)
    ensures
        key@ == composed(env@, app@),
{
    let mut key = String::from_str(env);
    key.append("/");
    key.append(app);
    proof {
        reveal_strlit("/");
        assert(key@ =~= composed(env@, app@));
    }
    key
}

/// Two pairs of segments with plain environments are stored under one key
/// only if they are the same pair.
pub proof fn lemma_plain_environments_do_not_collide(
    env1: Seq<char>,
    app1: Seq<char>,
    env2: Seq<char>,
    app2: Seq<char>,
)
    requires
        plain(env1),
        plain(env2),
        composed(env1, app1) == composed(env2, app2),
    ensures
        env1 == env2,
        app1 == app2,
{
    let k1 = composed(env1, app1);
    let k2 = composed(env2, app2);
    assert(k1[env1.len() as int] == separator());
    assert(k2[env2.len() as int] == separator());
    if env1.len() < env2.len() {
        assert(k2[env1.len() as int] == env2[env1.len() as int]);
    } else if env2.len() < env1.len() {
        assert(k1[env2.len() as int] == env1[env2.len() as int]);
    }
    assert(env1.len() == env2.len());
    assert(env1 =~= env2) by {
        assert forall|i: int| 0 <= i < env1.len() implies env1[i] == env2[i] by {
            assert(k1[i] == env1[i]);
            assert(k2[i] == env2[i]);
        }
    }
    assert(app1.len() == app2.len()) by {
        assert(k1.len() == env1.len() + 1 + app1.len());
        assert(k2.len() == env2.len() + 1 + app2.len());
    }
    assert(app1 =~= app2) by {
        assert forall|i: int| 0 <= i < app1.len() implies app1[i] == app2[i] by {
            assert(k1[env1.len() + 1 + i] == app1[i]);
            assert(k2[env2.len() + 1 + i] == app2[i]);
        }
    }
}

/// A separator inside a segment is not told from the joining one: moving
/// the split from one separator to the next gives the same key.
pub proof fn lemma_separator_in_segment_collides(
    head: Seq<char>,
    middle: Seq<char>,
    tail: Seq<char>,
)
    ensures
        composed(composed(head, middle), tail) == composed(head, composed(middle, tail)),
        composed(head, middle).len() != head.len(),
{
    assert(composed(composed(head, middle), tail) =~= composed(head, composed(middle, tail)));
}

} // verus!
