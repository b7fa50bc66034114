//! Decision logic of the wallpaper-cooperation protocol.
//!
//! Wallpaper-setting tools hand the current background pixmap to each other
//! through two well-known properties on the root window.  One installation
//! pass walks the two properties in order: it looks the property's atom up
//! (creating it when absent), reclaims the stale pixmap a previous tool left
//! behind (at most once per identifier, even when both properties name the
//! same one), and writes the new pixmap's identifier.
//!
//! This module holds every decision of that pass as a verified function
//! from plain reply values to the next action; issuing the requests and
//! waiting for the replies is the shell's business.  A failure while
//! looking up or reading is deliberately non-fatal to the pass: the
//! protocol favours installing the wallpaper over aborting on a cleanup
//! that concerns someone else's leftover resource.

use vstd::prelude::*;

verus! {

/// The predefined atom naming the PIXMAP property type.
pub const ATOM_PIXMAP: u32 = 20;

/// Number of well-known cooperation properties.
pub const PROPERTY_COUNT: usize = 2;

/// The name of the cooperation property with the given index, in the order
/// one pass walks them.
pub fn property_name(index: usize) -> (r: &'static str)
    requires
        index < 2,
    ensures
        index == 0 ==> r@ == "_XROOTPMAP_ID"@,
        index == 1 ==> r@ == "ESETROOT_PMAP_ID"@,
{
    if index == 0 {
        "_XROOTPMAP_ID"
    } else {
        "ESETROOT_PMAP_ID"
    }
}

/// A property-read reply, reduced to the fields the cleanup decision reads.
#[derive(Clone, Copy, Debug, PartialEq, Eq, Structural)]
pub struct PropertyReply {
    /// The type atom of the stored value.
    pub property_type: u32,
    /// The reply's format in bits per item.
    pub format: u8,
    /// The number of items in the value.
    pub length: u32,
    /// The number of bytes remaining past the read.
    pub bytes_after: u32,
    /// The first 32-bit item of the value; zero when the value is empty.
    pub first_value: u32,
}

/// The stale pixmap one property read asks to reclaim: the reply must hold
/// exactly one 32-bit PIXMAP value with nothing after it, the identifier
/// must be non-zero, and it must not already have been reclaimed earlier in
/// the same pass.
pub open spec fn spec_stale_pixmap(reply: PropertyReply, prev_killed: Option<u32>) -> Option<
    u32,
> {
    if reply.property_type == ATOM_PIXMAP && reply.format == 32 && reply.length == 1
        && reply.bytes_after == 0 && reply.first_value != 0 && prev_killed != Some(
        reply.first_value,
    ) {
        Some(reply.first_value)
    } else {
        None
    }
}

/// Decides whether a property's current value names a stale pixmap whose
/// owning client should be reclaimed, and records the reclaimed identifier
/// so the same pixmap is never targeted twice within one pass.
///
/// `reply` is `None` when the property could not be read; the pass then
/// skips cleanup for this property and carries on.
pub fn clean_root_atom(reply: Option<&PropertyReply>, prev_killed: &mut Option<u32>) -> (kill:
    Option<u32>)
    ensures
        kill == match reply {
            Some(rep) => spec_stale_pixmap(*rep, *old(prev_killed)),
            None => None::<u32>,
        },
        *final(prev_killed) == if kill is Some {
            kill
        } else {
            *old(prev_killed)
        },
{
    let rep = match reply {
        Some(rep) => rep,
        None => {
            return None;
        },
    };
    if rep.property_type == ATOM_PIXMAP && rep.format == 32 && rep.length == 1
        && rep.bytes_after == 0 {
        let pixmap_id = rep.first_value;
        let already = match prev_killed {
            Some(prev) => *prev == pixmap_id,
            None => false,
        };
        if pixmap_id != 0 && !already {
            *prev_killed = Some(pixmap_id);
            return Some(pixmap_id);
        }
    }
    None
}

/// What one pass does next after the lookup-only intern of a property's
/// atom.
#[derive(Clone, Copy, Debug, PartialEq, Eq, Structural)]
pub enum LookupStep {
    /// The lookup failed: abandon the pass.
    Abort,
    /// The atom does not exist yet: send the create-if-absent intern
    /// request.
    NeedCreate,
    /// The atom exists: read the property it names, clean up its stale
    /// value, and write the new identifier onto it.
    NeedRead(u32),
}

/// Decides the next action from the lookup-only intern outcome: the atom's
/// identifier, `0` when the atom does not exist, `None` when the request
/// itself failed.
pub fn process_lookup(lookup: Option<u32>) -> (r: LookupStep)
    ensures
        r == match lookup {
            None => LookupStep::Abort,
            Some(atom) => if atom == 0 {
                LookupStep::NeedCreate
            } else {
                LookupStep::NeedRead(atom)
            },
        },
{
    match lookup {
        None => LookupStep::Abort,
        Some(atom) => if atom == 0 {
            LookupStep::NeedCreate
        } else {
            LookupStep::NeedRead(atom)
        },
    }
}

/// Decides the next action from the create-if-absent intern outcome: the
/// freshly interned atom is written to (without cleanup, since the property
/// held no previous value); a failed request or an absent atom abandons the
/// pass.
pub fn process_create(create: Option<u32>) -> (r: Option<u32>)
    ensures
        r == match create {
            None => None::<u32>,
            Some(atom) => if atom == 0 {
                None::<u32>
            } else {
                Some(atom)
            },
        },
{
    match create {
        None => None,
        Some(atom) => if atom == 0 {
            None
        } else {
            Some(atom)
        },
    }
}

/// What the server would answer while one pass processes one property.
#[derive(Clone, Copy, Debug, PartialEq, Eq, Structural)]
pub struct PropertyEnv {
    /// Outcome of the lookup-only intern request: the atom, `0` when the
    /// atom does not exist, `None` when the request failed.
    pub lookup: Option<u32>,
    /// Outcome of the create-if-absent intern request, likewise.
    pub create: Option<u32>,
    /// Outcome of reading the property; `None` when the read failed.
    pub read: Option<PropertyReply>,
}

/// Whether processing a property with these answers abandons the pass
/// before reaching the next property.
pub open spec fn prop_aborts(env: PropertyEnv) -> bool {
    match env.lookup {
        None => true,
        Some(atom) => atom == 0 && (env.create is None || env.create == Some(0u32)),
    }
}

/// The reclaim request processing one property issues, given what was
/// already reclaimed earlier in the pass: cleanup runs only when the
/// property's atom already existed and its value could be read.
pub open spec fn prop_kill(env: PropertyEnv, prev_killed: Option<u32>) -> Option<u32> {
    match env.lookup {
        Some(atom) => if atom != 0 {
            match env.read {
                Some(reply) => spec_stale_pixmap(reply, prev_killed),
                None => None,
            }
        } else {
            None
        },
        None => None,
    }
}

/// The atom processing one property writes the new identifier onto:
/// the existing atom, or the freshly created one; `None` exactly when the
/// pass abandons at this property.
pub open spec fn prop_write_atom(env: PropertyEnv) -> Option<u32> {
    match env.lookup {
        None => None,
        Some(atom) => if atom != 0 {
            Some(atom)
        } else {
            match env.create {
                Some(created) => if created != 0 {
                    Some(created)
                } else {
                    None
                },
                None => None,
            }
        },
    }
}

/// The property writes one whole pass performs, in order, as the atoms
/// written onto; every write carries the new pixmap's identifier.
pub open spec fn pass_writes(env0: PropertyEnv, env1: PropertyEnv) -> Seq<u32> {
    match prop_write_atom(env0) {
        None => Seq::<u32>::empty(),
        Some(a0) => seq![a0] + match prop_write_atom(env1) {
            None => Seq::<u32>::empty(),
            Some(a1) => seq![a1],
        },
    }
}

/// The reclaim requests one whole pass issues, in order, when the server
/// answers the two properties as `env0` and `env1`.
pub open spec fn pass_kills(env0: PropertyEnv, env1: PropertyEnv) -> Seq<u32> {
    let k0 = prop_kill(env0, None);
    let ks0 = match k0 {
        Some(p) => seq![p],
        None => Seq::<u32>::empty(),
    };
    if prop_aborts(env0) {
        ks0
    } else {
        ks0 + match prop_kill(env1, k0) {
            Some(p) => seq![p],
            None => Seq::<u32>::empty(),
        }
    }
}

/// Law: a pass never issues two reclaim requests for the same identifier,
/// and never targets the null identifier, whatever the server answers.
pub proof fn lemma_pass_kills_distinct(env0: PropertyEnv, env1: PropertyEnv)
    ensures
        forall|i: int, j: int|
            0 <= i < j < pass_kills(env0, env1).len() ==> pass_kills(env0, env1)[i]
                != pass_kills(env0, env1)[j],
        forall|i: int| 0 <= i < pass_kills(env0, env1).len() ==> pass_kills(env0, env1)[i] != 0,
{
}

/// The reply a well-behaved wallpaper property holds after an installation
/// of pixmap `p`: exactly one 32-bit PIXMAP value and nothing after it.
pub open spec fn pixmap_reply(p: u32) -> PropertyReply {
    PropertyReply {
        property_type: ATOM_PIXMAP,
        format: 32,
        length: 1,
        bytes_after: 0,
        first_value: p,
    }
}

/// Law: installing the same pixmap twice in sequence reclaims the first
/// call's now-superseded value exactly once.
///
/// After a first installation of `p`, both properties exist and hold `p`.
/// The second pass then issues exactly one reclaim request, for `p`: the
/// first property's cleanup reclaims it, and the second property's cleanup
/// sees it already reclaimed and stays quiet.
pub proof fn lemma_second_install_kills_once(env0: PropertyEnv, env1: PropertyEnv, p: u32)
    requires
        p != 0,
        env0.lookup is Some && env0.lookup != Some(0u32),
        env1.lookup is Some && env1.lookup != Some(0u32),
        env0.read == Some(pixmap_reply(p)),
        env1.read == Some(pixmap_reply(p)),
    ensures
        pass_kills(env0, env1) =~= seq![p],
{
}

/// Law: when neither property abandons the pass, both properties are
/// written, each onto its own atom, so after a successful installation
/// both well-known properties hold the new pixmap's identifier.
pub proof fn lemma_success_writes_both(env0: PropertyEnv, env1: PropertyEnv)
    requires
        !prop_aborts(env0),
        !prop_aborts(env1),
    ensures
        pass_writes(env0, env1).len() == 2,
        pass_writes(env0, env1)[0] == prop_write_atom(env0)->0,
        pass_writes(env0, env1)[1] == prop_write_atom(env1)->0,
{
}

/// Processes one property of the pass, given the server's answers for it:
/// returns the reclaim request to issue (if any) and the atom to write the
/// new identifier onto (`None` exactly when the pass abandons here).
/// Threads the reclaimed-identifier record through, so a pixmap is never
/// targeted twice in one pass.
pub fn process_property(env: PropertyEnv, killed: &mut Option<u32>) -> (r: (
    Option<u32>,
    Option<u32>,
))
    ensures
        r.0 == prop_kill(env, *old(killed)),
        r.1 == prop_write_atom(env),
        (r.1 is None) == prop_aborts(env),
        *final(killed) == if r.0 is Some {
            r.0
        } else {
            *old(killed)
        },
{
    match process_lookup(env.lookup) {
        LookupStep::Abort => (None, None),
        LookupStep::NeedCreate => match process_create(env.create) {
            None => (None, None),
            Some(atom) => (None, Some(atom)),
        },
        LookupStep::NeedRead(atom) => {
            let reply = match &env.read {
                Some(rep) => Some(rep),
                None => None,
            };
            let kill = clean_root_atom(reply, killed);
            (kill, Some(atom))
        },
    }
}

/// Computes the whole cooperation pass from the server's answers: the
/// reclaim requests to issue and the atoms to write the new identifier
/// onto, in order.  The interactive shell takes the same decisions one
/// reply at a time through [`process_lookup`], [`process_create`] and
/// [`clean_root_atom`]; this function shows they compose to the pass model
/// that the laws above speak about.
pub fn set_root_atoms_plan(env0: PropertyEnv, env1: PropertyEnv) -> (r: (Vec<u32>, Vec<u32>))
    ensures
        r.0@ == pass_kills(env0, env1),
        r.1@ == pass_writes(env0, env1),
{
    let mut kills: Vec<u32> = Vec::new();
    let mut writes: Vec<u32> = Vec::new();
    let mut killed: Option<u32> = None;
    let (kill0, write0) = process_property(env0, &mut killed);
    if let Some(p) = kill0 {
        kills.push(p);
    }
    let atom0 = match write0 {
        None => {
            proof {
                assert(kills@ =~= pass_kills(env0, env1));
                assert(writes@ =~= pass_writes(env0, env1));
            }
            return (kills, writes);
        },
        Some(a) => a,
    };
    writes.push(atom0);
    let (kill1, write1) = process_property(env1, &mut killed);
    if let Some(p) = kill1 {
        kills.push(p);
    }
    if let Some(atom1) = write1 {
        writes.push(atom1);
    }
    proof {
        assert(kills@ =~= pass_kills(env0, env1));
        assert(writes@ =~= pass_writes(env0, env1));
    }
    (kills, writes)
}

} // verus!
