//! The property-object logic: reading a stream's mute flag out of a
//! decoded property object, and building the property object that
//! commands a mute change. The wire encoding and decoding of the
//! object belong to the audio-server collaborator outside the library;
//! the library works on the decoded key/value pairs.

use vstd::prelude::*;

verus! {

/// A property value as the logic reads it: a boolean, or anything the
/// vote has no use for.
#[derive(Debug, Clone, Copy, PartialEq, Eq, Structural)]
pub enum PropValue {
    Bool(bool),
    Other,
}

/// One key/value pair of a decoded property object.
#[derive(Debug, Clone, Copy, PartialEq, Eq, Structural)]
pub struct Prop {
    pub key: u32,
    pub value: PropValue,
}

/// What a property object says about the mute flag. `Absent` is an
/// expected, ignorable outcome (the object carried other parameters);
/// `Malformed` marks a protocol violation: the mute key is there but
/// its value is not boolean.
#[derive(Debug, Clone, Copy, PartialEq, Eq, Structural)]
pub enum MuteRead {
    Found(bool),
    Absent,
    Malformed,
}

/// The mute flag read off a property object: the value under the first
/// occurrence of `mute_key`, or `Absent` when no property carries it.
pub open spec fn spec_mute_read(props: Seq<Prop>, mute_key: u32) -> MuteRead
    decreases props.len(),
{
    if props.len() == 0 {
        MuteRead::Absent
    } else if props[0].key == mute_key {
        match props[0].value {
            PropValue::Bool(b) => MuteRead::Found(b),
            PropValue::Other => MuteRead::Malformed,
        }
    } else {
        spec_mute_read(props.drop_first(), mute_key)
    }
}

/// Locates the mute flag in a decoded property object.
pub fn mute_from_props(props: &Vec<Prop>, mute_key: u32) -> (r: MuteRead)
    ensures
        r == spec_mute_read(props@, mute_key),
{
    let mut i: usize = 0;
    proof {
        assert(props@.skip(0) =~= props@);
    }
    while i < props.len()
        invariant
            0 <= i <= props@.len(),
            spec_mute_read(props@, mute_key) == spec_mute_read(props@.skip(i as int), mute_key),
        decreases props@.len() - i,
    {
        let p = props[i];
        proof {
            assert(props@.skip(i as int)[0] == props@[i as int]);
            assert(props@.skip(i as int).drop_first() =~= props@.skip(i + 1 as int));
        }
        match p.value {
            PropValue::Bool(b) => {
                if p.key == mute_key {
                    return MuteRead::Found(b);
                }
            },
            PropValue::Other => {
                if p.key == mute_key {
                    return MuteRead::Malformed;
                }
            },
        }
        i = i + 1;
    }
    proof {
        assert(props@.skip(props@.len() as int) =~= Seq::<Prop>::empty());
    }
    MuteRead::Absent
}

/// Builds the property object that commands `mute` on a stream: a
/// single boolean property under `mute_key`, structurally identical to
/// what the server reports. Reading the object back yields the
/// commanded flag.
pub fn mute_command_props(mute_key: u32, mute: bool) -> (v: Vec<Prop>)
    ensures
        v@ == seq![Prop { key: mute_key, value: PropValue::Bool(mute) }],
        spec_mute_read(v@, mute_key) == MuteRead::Found(mute),
{
    let mut v: Vec<Prop> = Vec::new();
    v.push(Prop { key: mute_key, value: PropValue::Bool(mute) });
    proof {
        assert(v@ =~= seq![Prop { key: mute_key, value: PropValue::Bool(mute) }]);
    }
    v
}

} // verus!
