//! Audio output devices: the list the sound system reports, and finding one
//! by name in it.

use vstd::prelude::*;
use crate::text::{dec, push_int, push_str};

verus! {

/// An output device: its name, and its place in the sound system's list.
#[derive(Clone, Debug)]
pub struct AudioDevice {
    pub name: String,
    pub index: usize,
}

impl AudioDevice {
    /// `index: name`, as the device is shown.
    pub fn label(&self) -> (s: String)
        ensures
            s@ == dec(self.index as int) + ": "@ + self.name@,
    {
        let mut s = String::from_str("");
        proof {
            reveal_strlit("");
        }
        push_int(&mut s, self.index as i128);
        push_str(&mut s, ": ");
        push_str(&mut s, self.name.as_str());
        s
    }
}

/// The devices the sound system reported, as they come: an empty list is
/// the error that there are none.
pub fn require_devices(devices: Vec<AudioDevice>) -> (r: Result<Vec<AudioDevice>, String>)
    ensures
        devices@.len() == 0 ==> r is Err && r->Err_0@ == "No audio output devices found"@,
        devices@.len() > 0 ==> r == Ok::<Vec<AudioDevice>, String>(devices),
{
    if devices.len() == 0 {
        return Err(String::from_str("No audio output devices found"));
    }
    Ok(devices)
}

/// `i` is the first place in `devices` of a device called `name`.
pub open spec fn is_first_named(devices: Seq<AudioDevice>, name: Seq<char>, i: int) -> bool {
    &&& 0 <= i < devices.len()
    &&& devices[i].name@ == name
    &&& forall|j: int| 0 <= j < i ==> devices[j].name@ != name
}

/// The first place in `devices` of a device called `name`, if any.
pub open spec fn first_named(devices: Seq<AudioDevice>, name: Seq<char>) -> Option<int> {
    if exists|i: int| is_first_named(devices, name, i) {
        Some(choose|i: int| is_first_named(devices, name, i))
    } else {
        None
    }
}

/// Finds the device called `name` in the listing (or passes on the error
/// that there is no listing).
pub fn find_device_by_name(listing: Result<Vec<AudioDevice>, String>, name: &str) -> (r: Result<
    Option<AudioDevice>,
    String,
>)
    ensures
        listing is Err ==> r == Err::<Option<AudioDevice>, String>(listing->Err_0),
        listing is Ok ==> match first_named(listing->Ok_0@, name@) {
            None => r == Ok::<Option<AudioDevice>, String>(None),
            Some(i) => r is Ok && r->Ok_0 is Some && r->Ok_0->Some_0.name@ == name@
                && r->Ok_0->Some_0.index == listing->Ok_0@[i].index,
        },
{
    let devices = match listing {
        Err(e) => return Err(e),
        Ok(d) => d,
    };
    let target = String::from_str(name);
    let mut i: usize = 0;
    while i < devices.len()
        invariant
            i <= devices@.len(),
            listing == Ok::<Vec<AudioDevice>, String>(devices),
            target@ == name@,
            forall|j: int| 0 <= j < i ==> devices@[j].name@ != name@,
        decreases devices@.len() - i,
    {
        if devices[i].name == target {
            proof {
                assert(is_first_named(devices@, name@, i as int));
                let k = choose|k: int| is_first_named(devices@, name@, k);
                if k < i {
                    assert(devices@[k].name@ != name@);
                } else if k > i {
                    assert(devices@[i as int].name@ != name@);
                }
            }
            let found = AudioDevice { name: String::from_str(name), index: devices[i].index };
            return Ok(Some(found));
        }
        i = i + 1;
    }
    proof {
        assert(!exists|k: int| is_first_named(devices@, name@, k));
    }
    Ok(None)
}

/// The devices as values: each device's number and name.
pub open spec fn device_views(d: Seq<AudioDevice>) -> Seq<(int, Seq<char>)> {
    d.map_values(|a: AudioDevice| (a.index as int, a.name@))
}

/// The devices of a list of names as the sound system reports them, in its
/// order: each name that could be read, with its place in the list as its
/// number; a name that could not be read is skipped, and its number with it.
pub open spec fn numbered(names: Seq<Option<String>>) -> Seq<(int, Seq<char>)>
    decreases names.len(),
{
    if names.len() == 0 {
        Seq::empty()
    } else {
        let rest = numbered(names.drop_last());
        match names.last() {
            Some(n) => rest.push((names.len() - 1, n@)),
            None => rest,
        }
    }
}

/// Numbers the devices whose names the sound system reported (`None` where
/// a name could not be read).
pub fn number_devices(names: &Vec<Option<String>>) -> (r: Vec<AudioDevice>)
    ensures
        device_views(r@) == numbered(names@),
{
    let mut r: Vec<AudioDevice> = Vec::new();
    let mut i: usize = 0;
    proof {
        assert(names@.take(0) =~= Seq::<Option<String>>::empty());
        assert(device_views(r@) =~= Seq::<(int, Seq<char>)>::empty());
    }
    while i < names.len()
        invariant
            i <= names@.len(),
            device_views(r@) == numbered(names@.take(i as int)),
        decreases names@.len() - i,
    {
        proof {
            assert(names@.take(i as int + 1).drop_last() =~= names@.take(i as int));
        }
        match &names[i] {
            Some(n) => {
                let ghost before = r@;
                r.push(AudioDevice { name: n.clone(), index: i });
                proof {
                    assert(device_views(r@) =~= device_views(before).push((i as int, n@)));
                }
            },
            None => {},
        }
        i = i + 1;
    }
    proof {
        assert(names@.take(names@.len() as int) =~= names@);
    }
    r
}

} // verus!
