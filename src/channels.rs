use crate::assoc::{
    assoc_map, lemma_assoc_some_index, lemma_assoc_absent, lemma_assoc_found, lemma_assoc_map_push, lemma_assoc_map_update,
};
use crate::types::IbcEndpoint;
use vstd::prelude::*;
use vstd::string::*;

verus! {

/// What an endpoint names, as mathematical values.
pub struct EndpointView {
    pub port_id: Seq<char>,
    pub channel_id: Seq<char>,
}

impl View for IbcEndpoint {
    type V = EndpointView;

    open spec fn view(&self) -> EndpointView {
        EndpointView { port_id: self.port_id@, channel_id: self.channel_id@ }
    }
}

impl IbcEndpoint {
    /// A copy of the endpoint.
    pub fn duplicate(&self) -> (r: IbcEndpoint)
        ensures
            r@ == self@,
    {
        IbcEndpoint { port_id: self.port_id.clone(), channel_id: self.channel_id.clone() }
    }
}

/// The static facts of a connected channel, written once at connect time.
#[derive(Debug, Clone, PartialEq, Eq)]
pub struct ChannelInfo {
    /// id of this channel
    pub id: String,
    /// the remote port and channel
    pub counterparty_endpoint: IbcEndpoint,
    /// the connection the channel is built on
    pub connection_id: String,
}

/// What a `ChannelInfo` holds, as mathematical values.
pub struct ChannelInfoView {
    pub id: Seq<char>,
    pub counterparty_endpoint: EndpointView,
    pub connection_id: Seq<char>,
}

impl View for ChannelInfo {
    type V = ChannelInfoView;

    open spec fn view(&self) -> ChannelInfoView {
        ChannelInfoView {
            id: self.id@,
            counterparty_endpoint: self.counterparty_endpoint@,
            connection_id: self.connection_id@,
        }
    }
}

impl ChannelInfo {
    /// A copy of the record.
    pub fn duplicate(&self) -> (r: ChannelInfo)
        ensures
            r@ == self@,
    {
        ChannelInfo {
            id: self.id.clone(),
            counterparty_endpoint: self.counterparty_endpoint.duplicate(),
            connection_id: self.connection_id.clone(),
        }
    }
}

spec fn info_pair(c: ChannelInfo) -> (Seq<char>, ChannelInfoView) {
    (c.id@, c@)
}

/// The connected channels, by channel id.
pub struct ChannelRegistry {
    infos: Vec<ChannelInfo>,
}

impl ChannelRegistry {
    spec fn pairs(&self) -> Seq<(Seq<char>, ChannelInfoView)> {
        self.infos@.map_values(|c: ChannelInfo| info_pair(c))
    }
}

impl View for ChannelRegistry {
    type V = Map<Seq<char>, ChannelInfoView>;

    closed spec fn view(&self) -> Map<Seq<char>, ChannelInfoView> {
        assoc_map(self.pairs())
    }
}

impl ChannelRegistry {
    /// Each channel id has one record.
    pub closed spec fn unique(&self) -> bool {
        forall|i: int, j: int|
            0 <= i < j < self.pairs().len() ==> self.pairs()[i].0 != self.pairs()[j].0
    }

    /// A registry without channels.
    pub fn new() -> (r: ChannelRegistry)
        ensures
            r@ == Map::<Seq<char>, ChannelInfoView>::empty(),
            r.unique(),
    {
        let r = ChannelRegistry { infos: Vec::new() };
        assert(r@ =~= Map::<Seq<char>, ChannelInfoView>::empty());
        r
    }

    fn find(&self, id: &String) -> (r: Option<usize>)
        ensures
            match r {
                Some(i) => {
                    &&& i < self.pairs().len()
                    &&& self.pairs()[i as int].0 == id@
                    &&& forall|j: int| i < j < self.pairs().len() ==> self.pairs()[j].0 != id@
                },
                None => forall|j: int| 0 <= j < self.pairs().len() ==> self.pairs()[j].0 != id@,
            },
    {
        let mut i: usize = self.infos.len();
        while i > 0
            invariant
                i <= self.infos.len(),
                forall|j: int| i <= j < self.pairs().len() ==> self.pairs()[j].0 != id@,
            decreases i,
        {
            i = i - 1;
            if self.infos[i].id.eq(id) {
                return Some(i);
            }
        }
        None
    }

    /// The record of channel `id`, if it was connected.
    pub fn get(&self, id: &str) -> (r: Option<&ChannelInfo>)
        ensures
            match r {
                Some(c) => self@.contains_key(id@) && c@ == self@[id@],
                None => !self@.contains_key(id@),
            },
    {
        let key = String::from_str(id);
        match self.find(&key) {
            Some(i) => {
                proof {
                    lemma_assoc_found(self.pairs(), i as int, key@);
                }
                Some(&self.infos[i])
            },
            None => {
                proof {
                    lemma_assoc_absent(self.pairs(), key@);
                }
                None
            },
        }
    }

    /// Records `info` under its id.
    pub fn put(&mut self, info: ChannelInfo)
        requires
            old(self).unique(),
        ensures
            final(self)@ == old(self)@.insert(info.id@, info@),
            final(self).unique(),
    {
        let ghost old_pairs = self.pairs();
        let ghost p = info_pair(info);
        match self.find(&info.id) {
            Some(i) => {
                proof {
                    lemma_assoc_map_update(old_pairs, i as int, p);
                }
                self.infos.set(i, info);
                assert(self.pairs() =~= old_pairs.update(i as int, p));
            },
            None => {
                proof {
                    lemma_assoc_map_push(old_pairs, p);
                }
                self.infos.push(info);
                assert(self.pairs() =~= old_pairs.push(p));
            },
        }
    }

    /// Every connected channel, once.
    pub fn list(&self) -> (r: Vec<ChannelInfo>)
        requires
            self.unique(),
        ensures
            forall|k: int|
                0 <= k < r@.len() ==> self@.contains_key(#[trigger] r@[k].id@) && self@[r@[k].id@]
                    == r@[k]@,
            forall|id: Seq<char>|
                #[trigger] self@.contains_key(id) ==> exists|k: int|
                    0 <= k < r@.len() && #[trigger] r@[k].id@ == id,
            forall|k1: int, k2: int| 0 <= k1 < k2 < r@.len() ==> r@[k1].id@ != r@[k2].id@,
    {
        let ghost pairs = self.pairs();
        let mut r: Vec<ChannelInfo> = Vec::new();
        let mut i: usize = 0;
        while i < self.infos.len()
            invariant
                pairs == self.pairs(),
                self.unique(),
                i <= self.infos.len(),
                r@.len() == i,
                forall|k: int| 0 <= k < i ==> pairs[k] == (#[trigger] r@[k].id@, r@[k]@),
            decreases self.infos.len() - i,
        {
            r.push(self.infos[i].duplicate());
            i = i + 1;
        }
        proof {
            assert forall|k: int| 0 <= k < r@.len() implies self@.contains_key(#[trigger] r@[k].id@)
                && self@[r@[k].id@] == r@[k]@ by {
                assert(pairs[k].0 == r@[k].id@);
                lemma_assoc_found(pairs, k, r@[k].id@);
            }
            assert forall|id: Seq<char>| #[trigger] self@.contains_key(id) implies exists|k: int|
                0 <= k < r@.len() && #[trigger] r@[k].id@ == id by {
                let j = lemma_assoc_some_index(pairs, id);
                assert(r@[j].id@ == id);
            }
            assert forall|k1: int, k2: int| 0 <= k1 < k2 < r@.len() implies r@[k1].id@ != r@[k2].id@ by {
                assert(pairs[k1].0 != pairs[k2].0);
            }
        }
        r
    }
}

} // verus!
