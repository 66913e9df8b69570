//! State derived from the event stream: the local device's description and
//! the set of known contacts.

use vstd::prelude::*;

use crate::classify::{decode_packet, packet_event};
use crate::parser::CONTACT_MIN;
use crate::contact::{Contact, ContactView, PublicKey};
use crate::device::SelfInfo;
use crate::event::Event;
use crate::hub::{after_dispatch, EventDispatcher};

verus! {

/// Position of the contact keyed by `k`, if any.
pub open spec fn key_index(cs: Seq<ContactView>, k: Seq<u8>) -> Option<int>
    decreases cs.len(),
{
    if cs.len() == 0 {
        None
    } else if cs.last().public_key@ == k {
        Some(cs.len() - 1)
    } else {
        key_index(cs.drop_last(), k)
    }
}

/// No two contacts share a key.
pub open spec fn keys_unique(cs: Seq<ContactView>) -> bool {
    forall|i: int, j: int|
        0 <= i < j < cs.len() ==> (#[trigger] cs[i]).public_key@ != (#[trigger] cs[j]).public_key@
}

/// The contacts after observing `c`: it replaces the entry with its key,
/// or is added at the end.
pub open spec fn upsert(cs: Seq<ContactView>, c: ContactView) -> Seq<ContactView> {
    match key_index(cs, c.public_key@) {
        Some(i) => cs.update(i, c),
        None => cs.push(c),
    }
}

/// The contact that an event describes, if any.
pub open spec fn event_contact(e: Event) -> Option<ContactView> {
    match e {
        Event::Contact(c) => Some(c@),
        Event::NewContactAdvert(c) => Some(c@),
        _ => None,
    }
}

/// The self-description after observing `e`.
pub open spec fn observed_self_info(old: Option<SelfInfo>, e: Event) -> Option<SelfInfo> {
    match e {
        Event::SelfInfo(i) => Some(*i),
        _ => old,
    }
}

/// The contacts after observing `e`.
pub open spec fn observed_contacts(cs: Seq<ContactView>, e: Event) -> Seq<ContactView> {
    match event_contact(e) {
        Some(c) => upsert(cs, c),
        None => cs,
    }
}

proof fn lemma_key_index(cs: Seq<ContactView>, k: Seq<u8>)
    ensures
        match key_index(cs, k) {
            Some(i) => 0 <= i < cs.len() && cs[i].public_key@ == k,
            None => forall|j: int| 0 <= j < cs.len() ==> (#[trigger] cs[j]).public_key@ != k,
        },
    decreases cs.len(),
{
    if cs.len() > 0 && cs.last().public_key@ != k {
        lemma_key_index(cs.drop_last(), k);
        if key_index(cs.drop_last(), k) is None {
            assert forall|j: int| 0 <= j < cs.len() implies (#[trigger] cs[j]).public_key@ != k by {
                if j < cs.len() - 1 {
                    assert(cs[j] == cs.drop_last()[j]);
                }
            }
        }
    }
}

proof fn lemma_upsert_unique(cs: Seq<ContactView>, c: ContactView)
    requires
        keys_unique(cs),
    ensures
        keys_unique(upsert(cs, c)),
{
    lemma_key_index(cs, c.public_key@);
    let r = upsert(cs, c);
    assert forall|i: int, j: int| 0 <= i < j < r.len() implies (#[trigger] r[i]).public_key@
        != (#[trigger] r[j]).public_key@ by {
        if key_index(cs, c.public_key@) is None {
            if j == cs.len() {
                assert(r[i] == cs[i]);
            } else {
                assert(r[i] == cs[i] && r[j] == cs[j]);
            }
        }
    }
}

/// Cached device state, kept consistent with the events observed.
pub struct DeviceState {
    self_info: Option<SelfInfo>,
    contacts: Vec<Contact>,
}

impl DeviceState {
    /// The cached self-description.
    pub closed spec fn self_info_view(&self) -> Option<SelfInfo> {
        self.self_info
    }

    /// The cached contacts, in the order they were first seen.
    pub closed spec fn contacts_view(&self) -> Seq<ContactView> {
        self.contacts@.map_values(|c: Contact| c@)
    }

    /// The state's invariant: one entry per key.
    pub open spec fn wf(&self) -> bool {
        keys_unique(self.contacts_view())
    }

    /// Nothing known yet.
    pub fn new() -> (r: Self)
        ensures
            r.wf(),
            r.self_info_view() is None,
            r.contacts_view() == Seq::<ContactView>::empty(),
    {
        let r = DeviceState { self_info: None, contacts: Vec::new() };
        assert(r.contacts_view() =~= Seq::<ContactView>::empty());
        r
    }

    /// Updates the cache from an event: a self-description replaces the
    /// cached one, and a directory entry or new-contact advertisement
    /// replaces the contact with its key or adds it.
    pub fn observe(&mut self, event: &Event)
        requires
            old(self).wf(),
        ensures
            final(self).wf(),
            final(self).self_info_view() == observed_self_info(old(self).self_info_view(), *event),
            final(self).contacts_view() == observed_contacts(old(self).contacts_view(), *event),
    {
        match event {
            Event::SelfInfo(info) => {
                self.self_info = Some(info.duplicate());
            },
            Event::Contact(c) => {
                self.upsert_contact(c.duplicate());
            },
            Event::NewContactAdvert(c) => {
                self.upsert_contact(c.duplicate());
            },
            _ => {},
        }
    }

    fn upsert_contact(&mut self, c: Contact)
        requires
            old(self).wf(),
        ensures
            final(self).wf(),
            final(self).self_info_view() == old(self).self_info_view(),
            final(self).contacts_view() == upsert(old(self).contacts_view(), c@),
    {
        let ghost cs = self.contacts_view();
        proof {
            lemma_key_index(cs, c@.public_key@);
            lemma_upsert_unique(cs, c@);
        }
        let mut i: usize = self.contacts.len();
        assert(cs.take(i as int) =~= cs);
        while i > 0
            invariant
                i <= self.contacts@.len(),
                cs == self.contacts_view(),
                cs.len() == self.contacts@.len(),
                self.self_info_view() == old(self).self_info_view(),
                cs == old(self).contacts_view(),
                keys_unique(upsert(cs, c@)),
                key_index(cs, c@.public_key@) == key_index(cs.take(i as int), c@.public_key@),
            decreases i,
        {
            assert(cs.take(i as int).last() == cs[i - 1]);
            assert(cs.take(i as int).drop_last() =~= cs.take(i - 1));
            assert(cs[i - 1] == self.contacts@[i - 1]@);
            if self.contacts[i - 1].public_key == c.public_key {
                assert(cs[i - 1].public_key@ == c@.public_key@);
                assert(key_index(cs.take(i as int), c@.public_key@) == Some(i - 1));
                self.contacts.set(i - 1, c);
                assert(self.contacts_view() =~= cs.update(i - 1, c@));
                return;
            }
            i = i - 1;
        }
        assert(cs.take(0) =~= Seq::<ContactView>::empty());
        self.contacts.push(c);
        assert(self.contacts_view() =~= cs.push(c@));
    }

    /// The cached self-description.
    pub fn self_info(&self) -> (r: Option<SelfInfo>)
        ensures
            r == self.self_info_view(),
    {
        match &self.self_info {
            Some(i) => Some(i.duplicate()),
            None => None,
        }
    }

    /// A snapshot of the cached contacts.
    pub fn contacts(&self) -> (r: Vec<Contact>)
        ensures
            r@.map_values(|c: Contact| c@) == self.contacts_view(),
    {
        let mut r: Vec<Contact> = Vec::new();
        let mut i: usize = 0;
        while i < self.contacts.len()
            invariant
                i <= self.contacts@.len(),
                r@.len() == i,
                forall|j: int| 0 <= j < i ==> (#[trigger] r@[j])@ == self.contacts@[j]@,
            decreases self.contacts@.len() - i,
        {
            r.push(self.contacts[i].duplicate());
            i = i + 1;
        }
        assert(r@.map_values(|c: Contact| c@) =~= self.contacts_view());
        r
    }

    /// The cached contact with key `key`, if any.
    pub fn get_contact(&self, key: &PublicKey) -> (r: Option<Contact>)
        requires
            self.wf(),
        ensures
            match key_index(self.contacts_view(), key@) {
                Some(i) => r matches Some(c) && c@ == self.contacts_view()[i],
                None => r is None,
            },
    {
        let ghost cs = self.contacts_view();
        proof {
            lemma_key_index(cs, key@);
        }
        let mut i: usize = self.contacts.len();
        assert(cs.take(i as int) =~= cs);
        while i > 0
            invariant
                i <= self.contacts@.len(),
                cs == self.contacts_view(),
                cs.len() == self.contacts@.len(),
                key_index(cs, key@) == key_index(cs.take(i as int), key@),
            decreases i,
        {
            assert(cs.take(i as int).last() == cs[i - 1]);
            assert(cs.take(i as int).drop_last() =~= cs.take(i - 1));
            assert(cs[i - 1] == self.contacts@[i - 1]@);
            if self.contacts[i - 1].public_key == *key {
                return Some(self.contacts[i - 1].duplicate());
            }
            i = i - 1;
        }
        None
    }
}

/// The receive path's state: the cache and the hub, changed together so
/// that readers never see an update without its event, or the reverse.
pub struct Session {
    /// Cached device state.
    pub state: DeviceState,
    /// Event broadcast.
    pub hub: EventDispatcher,
}

impl Session {
    /// The session's invariant.
    pub open spec fn wf(&self) -> bool {
        self.state.wf() && self.hub.wf()
    }

    /// A session with an empty cache and a hub that keeps `capacity` events.
    pub fn new(capacity: usize) -> (r: Self)
        requires
            capacity >= 1,
        ensures
            r.wf(),
            r.state.self_info_view() is None,
            r.state.contacts_view().len() == 0,
            r.hub@.history.len() == 0,
            r.hub@.first == 0,
            r.hub@.capacity == capacity,
    {
        Session { state: DeviceState::new(), hub: EventDispatcher::new(capacity) }
    }

    /// Decodes a received frame's payload into its event, updates the
    /// cache from it and dispatches it. Returns whether an event was
    /// dispatched: not for an empty payload, nor once the hub's counter is
    /// exhausted.
    pub fn process_frame(&mut self, frame: &[u8]) -> (r: bool)
        requires
            old(self).wf(),
        ensures
            final(self).wf(),
            r == (frame@.len() > 0 && old(self).hub@.history.len() < u64::MAX),
            r ==> ({
                let e = final(self).hub@.history.last();
                &&& packet_event(frame@, e)
                &&& final(self).hub@ == after_dispatch(old(self).hub@, e)
                &&& final(self).state.self_info_view() == observed_self_info(
                    old(self).state.self_info_view(),
                    e,
                )
                &&& final(self).state.contacts_view() == observed_contacts(
                    old(self).state.contacts_view(),
                    e,
                )
            }),
            !r ==> final(self).hub@ == old(self).hub@ && final(self).state.self_info_view()
                == old(self).state.self_info_view() && final(self).state.contacts_view()
                == old(self).state.contacts_view(),
    {
        if self.hub.dispatched_count() == u64::MAX {
            return false;
        }
        match decode_packet(frame) {
            None => false,
            Some(event) => {
                self.state.observe(&event);
                self.hub.dispatch(event);
                true
            },
        }
    }
}

/// Last write wins: observing two entries with the same key leaves exactly
/// one entry with that key, holding the second observation's values.
pub proof fn law_contact_last_write_wins(cs: Seq<ContactView>, a: ContactView, b: ContactView)
    requires
        keys_unique(cs),
        a.public_key@ == b.public_key@,
    ensures
        ({
            let r = upsert(upsert(cs, a), b);
            &&& keys_unique(r)
            &&& key_index(r, b.public_key@) matches Some(i) && r[i] == b
            &&& forall|j: int|
                0 <= j < r.len() && (#[trigger] r[j]).public_key@ == b.public_key@ ==> r[j] == b
            &&& r.len() == upsert(cs, a).len()
        }),
{
    let m = upsert(cs, a);
    lemma_upsert_unique(cs, a);
    lemma_upsert_unique(m, b);
    lemma_key_index(cs, a.public_key@);
    lemma_key_index(m, b.public_key@);
    match key_index(cs, a.public_key@) {
        Some(i0) => assert(m[i0] == a),
        None => assert(m[cs.len() as int] == a),
    }
    let r = upsert(m, b);
    let i = key_index(m, b.public_key@)->0;
    assert(r[i] == b);
    lemma_key_index(r, b.public_key@);
}

proof fn lemma_upsert_shape(cs: Seq<ContactView>, c: ContactView)
    requires
        keys_unique(cs),
    ensures
        ({
            let r = upsert(cs, c);
            &&& r.len() == cs.len() + (if key_index(cs, c.public_key@) is Some { 0int } else { 1int })
            &&& forall|j: int|
                0 <= j < cs.len() && (#[trigger] cs[j]).public_key@ != c.public_key@ ==> r[j]
                    == cs[j]
        }),
{
    lemma_key_index(cs, c.public_key@);
}

/// Last write wins, for received frames: two directory-entry or
/// new-contact frames whose keys agree, observed in turn, leave exactly one
/// cached entry with that key, holding the second frame's values; an entry
/// is added only if the key was not cached before, and every other entry
/// is unchanged.
pub proof fn law_contact_frames_last_write_wins(
    cs: Seq<ContactView>,
    f1: Seq<u8>,
    f2: Seq<u8>,
    e1: Event,
    e2: Event,
)
    requires
        keys_unique(cs),
        f1.len() >= 1 + CONTACT_MIN,
        f2.len() >= 1 + CONTACT_MIN,
        f1[0] == 0x03 || f1[0] == 0x8A,
        f2[0] == 0x03 || f2[0] == 0x8A,
        f1.subrange(1, 33) == f2.subrange(1, 33),
        packet_event(f1, e1),
        packet_event(f2, e2),
    ensures
        ({
            let k = f2.subrange(1, 33);
            let r = observed_contacts(observed_contacts(cs, e1), e2);
            &&& keys_unique(r)
            &&& event_contact(e2) matches Some(c2) && c2.public_key@ == k && (key_index(r, k)
                matches Some(i) && r[i] == c2) && forall|j: int|
                0 <= j < r.len() && (#[trigger] r[j]).public_key@ == k ==> r[j] == c2
            &&& r.len() == cs.len() + (if key_index(cs, k) is Some { 0int } else { 1int })
            &&& forall|j: int|
                0 <= j < cs.len() && (#[trigger] cs[j]).public_key@ != k ==> r[j] == cs[j]
        }),
{
    let k = f2.subrange(1, 33);
    assert(f1.drop_first().subrange(0, 32) =~= f1.subrange(1, 33));
    assert(f2.drop_first().subrange(0, 32) =~= f2.subrange(1, 33));
    let a = event_contact(e1)->0;
    let b = event_contact(e2)->0;
    assert(a.public_key@ == k);
    assert(b.public_key@ == k);
    law_contact_last_write_wins(cs, a, b);
    let m = upsert(cs, a);
    lemma_upsert_unique(cs, a);
    lemma_upsert_shape(cs, a);
    lemma_upsert_shape(m, b);
    lemma_key_index(cs, k);
    match key_index(cs, k) {
        Some(i0) => assert(m[i0] == a),
        None => assert(m[cs.len() as int] == a),
    }
    lemma_key_index(m, k);
    assert forall|j: int| 0 <= j < cs.len() && (#[trigger] cs[j]).public_key@ != k implies upsert(
        m,
        b,
    )[j] == cs[j] by {
        assert(m[j] == cs[j]);
    }
}

} // verus!
