//! Expansion of the self-referential group-ping mapping.
//!
//! Each group maps to a list of member tokens: a literal-user token (leading
//! `@`), an alias-reference token (leading `%`) naming another group, or the
//! reserved name, which must never be configured.  Expansion is single-hop
//! against the original mapping: an alias contributes only the referenced
//! group's literal users, never its aliases.  Tokens of neither shape are
//! silently ignored.

use crate::errors::ConfigError;
use crate::outside::{is_valid_user_id, user_id_ok};
use crate::schema::RawConfig;
use crate::util::{insert_string, no_dup_strs, unique_keys};
use vstd::prelude::*;
use vstd::string::{StrSliceExecFns, StringExecFns};

verus! {

/// A literal-user token carries the user sentinel prefix.
pub open spec fn is_user_token(t: Seq<char>) -> bool {
    t.len() > 0 && t[0] == '@'
}

/// An alias-reference token carries the alias sentinel prefix.
pub open spec fn is_alias_token(t: Seq<char>) -> bool {
    t.len() > 0 && t[0] == '%'
}

/// The reserved name, bare or behind the alias sentinel; it must never
/// appear as a member token.
pub open spec fn is_reserved_token(t: Seq<char>) -> bool {
    t == seq!['a', 'l', 'l'] || t == seq!['%', 'a', 'l', 'l']
}

/// The group an alias token refers to: the token without its sentinel.
pub open spec fn alias_target(t: Seq<char>) -> Seq<char> {
    t.subrange(1, t.len() as int)
}

/// Whether the mapping has a group of this name.
pub open spec fn has_group(gs: Seq<(Seq<char>, Seq<Seq<char>>)>, name: Seq<char>) -> bool {
    exists|j: int| 0 <= j < gs.len() && gs[j].0 == name
}

/// The token list of the group of this name (unique keys make it unambiguous).
pub open spec fn group_tokens(gs: Seq<(Seq<char>, Seq<Seq<char>>)>, name: Seq<char>) -> Seq<
    Seq<char>,
> {
    let j = choose|j: int| 0 <= j < gs.len() && gs[j].0 == name;
    gs[j].1
}

/// Whether some member token anywhere is the reserved name.
pub open spec fn has_reserved(gs: Seq<(Seq<char>, Seq<Seq<char>>)>) -> bool {
    exists|g: int, i: int|
        0 <= g < gs.len() && 0 <= i < gs[g].1.len() && is_reserved_token(gs[g].1[i])
}

/// Whether some literal-user token anywhere is not a valid user id.
pub open spec fn has_invalid_user(gs: Seq<(Seq<char>, Seq<Seq<char>>)>) -> bool {
    exists|g: int, i: int|
        0 <= g < gs.len() && 0 <= i < gs[g].1.len() && is_user_token(gs[g].1[i]) && !user_id_ok(
            gs[g].1[i],
        )
}

/// Whether some alias token anywhere names a group the mapping lacks.
pub open spec fn has_unresolved_alias(gs: Seq<(Seq<char>, Seq<Seq<char>>)>) -> bool {
    exists|g: int, i: int|
        0 <= g < gs.len() && 0 <= i < gs[g].1.len() && is_alias_token(gs[g].1[i]) && !has_group(
            gs,
            alias_target(gs[g].1[i]),
        )
}

/// A mapping expands without error iff no token is reserved, every literal
/// user is valid, and every alias resolves.
pub open spec fn gp_ok(gs: Seq<(Seq<char>, Seq<Seq<char>>)>) -> bool {
    &&& !has_reserved(gs)
    &&& !has_invalid_user(gs)
    &&& !has_unresolved_alias(gs)
}

/// Whether the exact token `u` occurs somewhere in the mapping.
pub open spec fn token_occurs(gs: Seq<(Seq<char>, Seq<Seq<char>>)>, u: Seq<char>) -> bool {
    exists|g: int, i: int| 0 <= g < gs.len() && 0 <= i < gs[g].1.len() && gs[g].1[i] == u
}

/// Whether some alias token in the mapping targets the group name `a`.
pub open spec fn alias_occurs(gs: Seq<(Seq<char>, Seq<Seq<char>>)>, a: Seq<char>) -> bool {
    exists|g: int, i: int|
        0 <= g < gs.len() && 0 <= i < gs[g].1.len() && is_alias_token(gs[g].1[i]) && alias_target(
            gs[g].1[i],
        ) == a
}

/// The literal users among a token list.
pub open spec fn direct_users(ts: Seq<Seq<char>>) -> Set<Seq<char>> {
    Set::new(|u: Seq<char>| exists|i: int| 0 <= i < ts.len() && ts[i] == u && is_user_token(u))
}

/// Every literal user of any group: the users eligible to initiate pings.
pub open spec fn eligible_users(gs: Seq<(Seq<char>, Seq<Seq<char>>)>) -> Set<Seq<char>> {
    Set::new(
        |u: Seq<char>|
            exists|g: int, i: int|
                0 <= g < gs.len() && 0 <= i < gs[g].1.len() && gs[g].1[i] == u && is_user_token(u),
    )
}

/// What one token contributes to its group: a literal user contributes
/// itself, an alias contributes the referenced group's literal users (one
/// hop), anything else contributes nothing.
pub open spec fn token_members(gs: Seq<(Seq<char>, Seq<Seq<char>>)>, t: Seq<char>) -> Set<
    Seq<char>,
> {
    if is_user_token(t) {
        Set::empty().insert(t)
    } else if is_alias_token(t) && has_group(gs, alias_target(t)) {
        direct_users(group_tokens(gs, alias_target(t)))
    } else {
        Set::empty()
    }
}

/// A group's resolved member set: what its tokens contribute together.
pub open spec fn resolved_members(gs: Seq<(Seq<char>, Seq<Seq<char>>)>, ts: Seq<Seq<char>>) -> Set<
    Seq<char>,
> {
    Set::new(
        |u: Seq<char>|
            exists|i: int| 0 <= i < ts.len() && #[trigger] token_members(gs, ts[i]).contains(u),
    )
}

/// Taking one more token extends the resolved members by that token's
/// contribution.
proof fn lemma_resolved_step(gs: Seq<(Seq<char>, Seq<Seq<char>>)>, ts: Seq<Seq<char>>, i: int)
    requires
        0 <= i < ts.len(),
    ensures
        resolved_members(gs, ts.take(i + 1)) =~= resolved_members(gs, ts.take(i)).union(
            token_members(gs, ts[i]),
        ),
{
    let pre = ts.take(i);
    let post = ts.take(i + 1);
    assert forall|u: Seq<char>| resolved_members(gs, post).contains(u) implies resolved_members(
        gs,
        pre,
    ).union(token_members(gs, ts[i])).contains(u) by {
        let j = choose|j: int| 0 <= j < post.len() && #[trigger] token_members(gs, post[j]).contains(
            u,
        );
        if j < i {
            assert(pre[j] == post[j]);
            assert(token_members(gs, pre[j]).contains(u));
        } else {
            assert(post[j] == ts[i]);
        }
    }
    assert forall|u: Seq<char>|
        resolved_members(gs, pre).union(token_members(gs, ts[i])).contains(
            u,
        ) implies resolved_members(gs, post).contains(u) by {
        if resolved_members(gs, pre).contains(u) {
            let j = choose|j: int|
                0 <= j < pre.len() && #[trigger] token_members(gs, pre[j]).contains(u);
            assert(post[j] == pre[j]);
            assert(token_members(gs, post[j]).contains(u));
        } else {
            assert(post[i] == ts[i]);
            assert(token_members(gs, post[i]).contains(u));
        }
    }
}

/// Taking one more token extends the literal users by that token, when it is
/// one.
proof fn lemma_direct_step(ts: Seq<Seq<char>>, i: int)
    requires
        0 <= i < ts.len(),
    ensures
        is_user_token(ts[i]) ==> direct_users(ts.take(i + 1)) =~= direct_users(ts.take(i)).insert(
            ts[i],
        ),
        !is_user_token(ts[i]) ==> direct_users(ts.take(i + 1)) =~= direct_users(ts.take(i)),
{
    let pre = ts.take(i);
    let post = ts.take(i + 1);
    assert forall|u: Seq<char>| direct_users(post).contains(u) implies direct_users(pre).contains(u)
        || (is_user_token(ts[i]) && u == ts[i]) by {
        let j = choose|j: int| 0 <= j < post.len() && post[j] == u && is_user_token(u);
        if j < i {
            assert(pre[j] == u);
        } else {
            assert(post[j] == ts[i]);
        }
    }
    assert forall|u: Seq<char>|
        direct_users(pre).contains(u) || (is_user_token(ts[i]) && u
            == ts[i]) implies direct_users(post).contains(u) by {
        if direct_users(pre).contains(u) {
            let j = choose|j: int| 0 <= j < pre.len() && pre[j] == u && is_user_token(u);
            assert(post[j] == u);
        } else {
            assert(post[i] == u);
        }
    }
}

/// Taking one more group extends the eligible users by that group's literal
/// users.
proof fn lemma_eligible_step(gs: Seq<(Seq<char>, Seq<Seq<char>>)>, g: int)
    requires
        0 <= g < gs.len(),
    ensures
        eligible_users(gs.take(g + 1)) =~= eligible_users(gs.take(g)).union(direct_users(gs[g].1)),
{
    let pre = gs.take(g);
    let post = gs.take(g + 1);
    assert forall|u: Seq<char>| eligible_users(post).contains(u) implies eligible_users(pre).union(
        direct_users(gs[g].1),
    ).contains(u) by {
        let (g2, i2) = choose|g2: int, i2: int|
            0 <= g2 < post.len() && 0 <= i2 < post[g2].1.len() && post[g2].1[i2] == u
                && is_user_token(u);
        if g2 < g {
            assert(pre[g2] == post[g2]);
            assert(eligible_users(pre).contains(u));
        } else {
            assert(post[g2] == gs[g]);
            assert(direct_users(gs[g].1).contains(u));
        }
    }
    assert forall|u: Seq<char>|
        eligible_users(pre).union(direct_users(gs[g].1)).contains(u) implies eligible_users(
        post,
    ).contains(u) by {
        if eligible_users(pre).contains(u) {
            let (g2, i2) = choose|g2: int, i2: int|
                0 <= g2 < pre.len() && 0 <= i2 < pre[g2].1.len() && pre[g2].1[i2] == u
                    && is_user_token(u);
            assert(post[g2] == pre[g2]);
            assert(0 <= g2 < post.len() && 0 <= i2 < post[g2].1.len() && post[g2].1[i2] == u);
        } else {
            let i2 = choose|i2: int| 0 <= i2 < gs[g].1.len() && gs[g].1[i2] == u && is_user_token(u);
            assert(post[g] == gs[g]);
            assert(0 <= g < post.len() && 0 <= i2 < post[g].1.len() && post[g].1[i2] == u);
        }
    }
}

/// With unique keys, the token list looked up for a name is the one stored
/// beside it.
proof fn lemma_group_tokens_at(gs: Seq<(Seq<char>, Seq<Seq<char>>)>, name: Seq<char>, j: int)
    requires
        unique_keys(gs),
        0 <= j < gs.len(),
        gs[j].0 == name,
    ensures
        has_group(gs, name),
        group_tokens(gs, name) == gs[j].1,
{
    assert(has_group(gs, name));
    let j2 = choose|j2: int| 0 <= j2 < gs.len() && gs[j2].0 == name;
    if j2 != j {
        if j2 < j {
            assert(gs[j2].0 != gs[j].0);
        } else {
            assert(gs[j].0 != gs[j2].0);
        }
    }
}

/// Whether the token is the reserved name.
fn token_is_reserved(t: &String) -> (r: bool)
    ensures
        r == is_reserved_token(t@),
{
    let all = String::from_str("all");
    let pall = String::from_str("%all");
    proof {
        reveal_strlit("all");
        reveal_strlit("%all");
        assert("all"@ =~= seq!['a', 'l', 'l']);
        assert("%all"@ =~= seq!['%', 'a', 'l', 'l']);
    }
    *t == all || *t == pall
}

/// Whether the token starts with the given sentinel character.
fn first_char_is(t: &String, c: char) -> (r: bool)
    ensures
        r == (t@.len() > 0 && t@[0] == c),
{
    let s = t.as_str();
    let n = s.unicode_len();
    if n == 0 {
        false
    } else {
        s.get_char(0) == c
    }
}

/// The token without its leading sentinel character.
fn strip_sentinel(t: &String) -> (r: String)
    requires
        t@.len() > 0,
    ensures
        r@ == alias_target(t@),
{
    let s = t.as_str();
    let n = s.unicode_len();
    let sub = s.substring_char(1, n);
    String::from_str(sub)
}

/// The position of the group of this name, if the mapping has one.
fn lookup_group(groups: &Vec<(String, Vec<String>)>, name: &String) -> (r: Option<usize>)
    ensures
        r is Some <==> has_group(groups.deep_view(), name@),
        r matches Some(j) ==> j < groups@.len() && groups.deep_view()[j as int].0 == name@,
{
    let n = groups.len();
    for j in 0..n
        invariant
            n == groups.len(),
            forall|k: int| 0 <= k < j ==> (#[trigger] groups.deep_view()[k]).0 != name@,
    {
        if groups[j].0 == *name {
            proof {
                assert(groups.deep_view()[j as int].0 == name@);
            }
            return Some(j);
        }
        proof {
            assert(groups.deep_view()[j as int].0 == groups@[j as int].0@);
        }
    }
    None
}

/// Group pings: expands the raw mapping into each group's resolved user set
/// and the flat set of ping-eligible users.  An absent section disables the
/// feature, with both outputs empty.
#[verifier::loop_isolation(false)]
#[verifier::rlimit(60)]
pub fn load_group_ping_settings(raw: &RawConfig) -> (r: Result<
    (Vec<(String, Vec<String>)>, Vec<String>),
    ConfigError,
>)
    requires
        raw.group_pings matches Some(groups) ==> unique_keys(groups.deep_view()),
    ensures
        raw.group_pings is None ==> (r matches Ok(p) && p.0@.len() == 0 && p.1@.len() == 0),
        raw.group_pings matches Some(groups) ==> {
            let gs = groups.deep_view();
            &&& (r is Ok <==> gp_ok(gs))
            &&& (r matches Ok(p) ==> {
                &&& p.0@.len() == gs.len()
                &&& forall|k: int| 0 <= k < gs.len() ==> (#[trigger] p.0.deep_view()[k]).0 == gs[k].0
                &&& forall|k: int|
                    0 <= k < gs.len() ==> (#[trigger] p.0.deep_view()[k]).1.to_set()
                        == resolved_members(gs, gs[k].1)
                &&& forall|k: int|
                    0 <= k < gs.len() ==> no_dup_strs((#[trigger] p.0.deep_view()[k]).1)
                &&& p.1.deep_view().to_set() == eligible_users(gs)
                &&& no_dup_strs(p.1.deep_view())
            })
            &&& (r matches Err(e) ==> {
                &&& (e is ReservedNameUsed || e is SyntaxError || e is UnresolvedAliasReference)
                &&& (e is ReservedNameUsed ==> has_reserved(gs))
                &&& (e matches ConfigError::SyntaxError(u) ==> is_user_token(u@) && !user_id_ok(u@)
                    && token_occurs(gs, u@))
                &&& (e matches ConfigError::UnresolvedAliasReference(a) ==> !has_group(gs, a@)
                    && alias_occurs(gs, a@))
            })
            &&& (has_reserved(gs) && !has_invalid_user(gs) ==> (r matches Err(e) && e
                is ReservedNameUsed))
            &&& (has_invalid_user(gs) && !has_reserved(gs) ==> (r matches Err(e) && e
                is SyntaxError))
        },
{
    match &raw.group_pings {
        None => Ok((Vec::new(), Vec::new())),
        Some(groups) => {
            let ghost gs = groups.deep_view();
            let ng = groups.len();
            // First pass: collect every literal user into the eligible set,
            // and reject the reserved name or an invalid user id anywhere.
            let mut eligible: Vec<String> = Vec::new();
            for g in 0..ng
                invariant
                    eligible.deep_view().to_set() =~= eligible_users(gs.take(g as int)),
                    no_dup_strs(eligible.deep_view()),
                    forall|g2: int, i2: int|
                        0 <= g2 < g && 0 <= i2 < gs[g2].1.len() ==> !is_reserved_token(
                            #[trigger] gs[g2].1[i2],
                        ),
                    forall|g2: int, i2: int|
                        0 <= g2 < g && 0 <= i2 < gs[g2].1.len() && is_user_token(
                            #[trigger] gs[g2].1[i2],
                        ) ==> user_id_ok(gs[g2].1[i2]),
            {
                let pair = &groups[g];
                proof {
                    assert(gs[g as int].1 == pair.1.deep_view());
                }
                let nt = pair.1.len();
                for i in 0..nt
                    invariant
                        nt == pair.1.len(),
                        eligible.deep_view().to_set() =~= eligible_users(gs.take(g as int)).union(
                            direct_users(gs[g as int].1.take(i as int)),
                        ),
                        no_dup_strs(eligible.deep_view()),
                        forall|i2: int|
                            0 <= i2 < i ==> !is_reserved_token(#[trigger] gs[g as int].1[i2]),
                        forall|i2: int|
                            0 <= i2 < i && is_user_token(#[trigger] gs[g as int].1[i2])
                                ==> user_id_ok(gs[g as int].1[i2]),
                {
                    let t = &pair.1[i];
                    proof {
                        assert(gs[g as int].1[i as int] == t@);
                    }
                    if token_is_reserved(t) {
                        return Err(ConfigError::ReservedNameUsed);
                    }
                    if first_char_is(t, '@') {
                        if !is_valid_user_id(t) {
                            return Err(ConfigError::SyntaxError(t.clone()));
                        }
                        insert_string(&mut eligible, t);
                    }
                    proof {
                        lemma_direct_step(gs[g as int].1, i as int);
                    }
                }
                proof {
                    assert(gs[g as int].1.take(nt as int) =~= gs[g as int].1);
                    lemma_eligible_step(gs, g as int);
                }
            }
            proof {
                assert(gs.take(ng as int) =~= gs);
            }
            // Second pass: build each group's resolved member set; the first
            // pass already ruled out the reserved name and invalid users, so
            // only an unresolvable alias can still fail.
            let mut resolved: Vec<(String, Vec<String>)> = Vec::new();
            for g in 0..ng
                invariant
                    !has_reserved(gs),
                    !has_invalid_user(gs),
                    resolved@.len() == g,
                    forall|k: int| 0 <= k < g ==> (#[trigger] resolved.deep_view()[k]).0 == gs[k].0,
                    forall|k: int|
                        0 <= k < g ==> (#[trigger] resolved.deep_view()[k]).1.to_set()
                            == resolved_members(gs, gs[k].1),
                    forall|k: int| 0 <= k < g ==> no_dup_strs((#[trigger] resolved.deep_view()[k]).1),
                    forall|g2: int, i2: int|
                        0 <= g2 < g && 0 <= i2 < gs[g2].1.len() && is_alias_token(
                            #[trigger] gs[g2].1[i2],
                        ) ==> has_group(gs, alias_target(gs[g2].1[i2])),
            {
                let pair = &groups[g];
                proof {
                    assert(gs[g as int].1 == pair.1.deep_view());
                }
                let nt = pair.1.len();
                let mut members: Vec<String> = Vec::new();
                for i in 0..nt
                    invariant
                        nt == pair.1.len(),
                        members.deep_view().to_set() =~= resolved_members(
                            gs,
                            gs[g as int].1.take(i as int),
                        ),
                        no_dup_strs(members.deep_view()),
                        forall|i2: int|
                            0 <= i2 < i && is_alias_token(#[trigger] gs[g as int].1[i2])
                                ==> has_group(gs, alias_target(gs[g as int].1[i2])),
                {
                    let t = &pair.1[i];
                    proof {
                        assert(gs[g as int].1[i as int] == t@);
                    }
                    if first_char_is(t, '@') {
                        insert_string(&mut members, t);
                        proof {
                            lemma_resolved_step(gs, gs[g as int].1, i as int);
                            assert(token_members(gs, t@) =~= Set::empty().insert(t@));
                        }
                    } else if first_char_is(t, '%') {
                        let target = strip_sentinel(t);
                        match lookup_group(groups, &target) {
                            None => {
                                proof {
                                    assert(alias_occurs(gs, target@)) by {
                                        assert(is_alias_token(gs[g as int].1[i as int]));
                                    }
                                }
                                return Err(ConfigError::UnresolvedAliasReference(target));
                            },
                            Some(j) => {
                                let referenced = &groups[j].1;
                                proof {
                                    lemma_group_tokens_at(gs, target@, j as int);
                                    assert(gs[j as int].1 == referenced.deep_view());
                                }
                                let ghost ref_toks = referenced.deep_view();
                                let nr = referenced.len();
                                for u_i in 0..nr
                                    invariant
                                        nr == referenced.len(),
                                        members.deep_view().to_set() =~= resolved_members(
                                            gs,
                                            gs[g as int].1.take(i as int),
                                        ).union(direct_users(ref_toks.take(u_i as int))),
                                        no_dup_strs(members.deep_view()),
                                {
                                    let u = &referenced[u_i];
                                    proof {
                                        assert(ref_toks[u_i as int] == u@);
                                    }
                                    if first_char_is(u, '@') {
                                        insert_string(&mut members, u);
                                    }
                                    proof {
                                        lemma_direct_step(ref_toks, u_i as int);
                                    }
                                }
                                proof {
                                    assert(ref_toks.take(nr as int) =~= ref_toks);
                                    lemma_resolved_step(gs, gs[g as int].1, i as int);
                                    assert(token_members(gs, t@) == direct_users(ref_toks));
                                }
                            },
                        }
                    } else {
                        proof {
                            lemma_resolved_step(gs, gs[g as int].1, i as int);
                            assert(token_members(gs, t@) =~= Set::<Seq<char>>::empty());
                        }
                    }
                }
                proof {
                    assert(gs[g as int].1.take(nt as int) =~= gs[g as int].1);
                }
                let ghost pre = resolved.deep_view();
                let name = pair.0.clone();
                resolved.push((name, members));
                proof {
                    assert(resolved.deep_view() =~= pre.push(
                        (gs[g as int].0, members.deep_view()),
                    ));
                }
            }
            proof {
                assert(!has_unresolved_alias(gs));
            }
            Ok((resolved, eligible))
        },
    }
}

} // verus!
