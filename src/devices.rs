//! The list of output devices offered to the user.
//!
//! The audio host is queried outside the library; it hands over the name of
//! its default device, if it has one, and the names of all its output
//! devices. The list shows the default first and every other name once.
use vstd::prelude::*;

verus! {

pub open spec fn names_of(v: Seq<String>) -> Seq<Seq<char>> {
    v.map_values(|s: String| s@)
}

/// `acc` extended by each name of `names`, in order, that it does not hold yet.
pub open spec fn add_new_names(acc: Seq<Seq<char>>, names: Seq<Seq<char>>) -> Seq<Seq<char>>
    decreases names.len(),
{
    if names.len() == 0 {
        acc
    } else {
        let m = add_new_names(acc, names.drop_last());
        if m.contains(names.last()) {
            m
        } else {
            m.push(names.last())
        }
    }
}

/// The device list for a default device and an enumeration.
pub open spec fn device_list(default: Option<Seq<char>>, names: Seq<Seq<char>>) -> Seq<Seq<char>> {
    match default {
        Some(d) => add_new_names(seq![d], names),
        None => add_new_names(Seq::empty(), names),
    }
}

fn holds_name(list: &Vec<String>, name: &String) -> (r: bool)
    ensures
        r == names_of(list@).contains(name@),
{
    let mut i: usize = 0;
    while i < list.len()
        invariant
            i <= list@.len(),
            forall|k: int| 0 <= k < i ==> names_of(list@)[k] != name@,
        decreases list@.len() - i,
    {
        if list[i] == *name {
            assert(names_of(list@)[i as int] == name@);
            return true;
        }
        i = i + 1;
    }
    false
}

/// The device list to offer, and the default device: the default first,
/// then each enumerated name that is not in the list yet, in order.
pub fn merge_device_names(default: Option<String>, enumerated: Vec<String>) -> (r: (
    Vec<String>,
    Option<String>,
))
    ensures
        names_of(r.0@) == device_list(
            match default {
                Some(d) => Some(d@),
                None => None,
            },
            names_of(enumerated@),
        ),
        r.1 == default,
{
    let mut list: Vec<String> = Vec::new();
    let ghost init: Seq<Seq<char>> = Seq::empty();
    match &default {
        Some(d) => {
            list.push(d.clone());
            proof {
                init = seq![d@];
            }
        },
        None => {},
    }
    assert(names_of(list@) =~= init);
    let ghost names = names_of(enumerated@);
    let mut i: usize = 0;
    while i < enumerated.len()
        invariant
            i <= enumerated@.len(),
            names == names_of(enumerated@),
            names_of(list@) == add_new_names(init, names.take(i as int)),
        decreases enumerated@.len() - i,
    {
        let ghost before = list@;
        assert(names.take(i + 1).drop_last() =~= names.take(i as int));
        assert(names.take(i + 1).last() == enumerated@[i as int]@);
        if !holds_name(&list, &enumerated[i]) {
            list.push(enumerated[i].clone());
            assert(names_of(list@) =~= names_of(before).push(enumerated@[i as int]@));
        }
        i = i + 1;
    }
    assert(names.take(i as int) =~= names);
    (list, default)
}

/// With no devices and no default device, the list offered is empty.
pub proof fn law_no_devices_gives_empty_list()
    ensures
        device_list(None, Seq::empty()) == Seq::<Seq<char>>::empty(),
{
}

} // verus!
