//! The routing table: which channels receive a copy of what is said in a
//! source channel, and how the speaker's name is decorated there.

use crate::assoc::{
    assoc_map, distinct_keys, has_key, lemma_assoc_absent, lemma_assoc_empty, lemma_assoc_entry,
    lemma_assoc_len, lemma_assoc_push, lemma_assoc_update,
};
use vstd::prelude::*;

verus! {

/// What an optional string holds, as plain characters.
pub open spec fn optional_text(text: Option<String>) -> Option<Seq<char>> {
    match text {
        Some(s) => Some(s@),
        None => None,
    }
}

/// The characters of an optional text, nothing where it is unset.
pub open spec fn text_or_empty(text: Option<Seq<char>>) -> Seq<char> {
    match text {
        Some(s) => s,
        None => Seq::empty(),
    }
}

/// A channel that receives relayed messages.
pub struct ChannelTargetView {
    pub id: Seq<char>,
    pub user_prefix: Option<Seq<char>>,
    pub user_suffix: Option<Seq<char>>,
}

impl ChannelTargetView {
    /// What is put in front of a speaker's name in this channel.
    pub open spec fn prefix(self) -> Seq<char> {
        text_or_empty(self.user_prefix)
    }

    /// What is put behind a speaker's name in this channel.
    pub open spec fn suffix(self) -> Seq<char> {
        text_or_empty(self.user_suffix)
    }
}

/// A channel that receives relayed messages, with the decoration that the
/// names of speakers get there. A target does not change once it is made.
#[derive(Debug)]
pub struct ChannelTarget {
    id: String,
    user_prefix: Option<String>,
    user_suffix: Option<String>,
}

impl View for ChannelTarget {
    type V = ChannelTargetView;

    closed spec fn view(&self) -> ChannelTargetView {
        ChannelTargetView {
            id: self.id@,
            user_prefix: optional_text(self.user_prefix),
            user_suffix: optional_text(self.user_suffix),
        }
    }
}

impl ChannelTarget {
    pub fn new(id: String, user_prefix: Option<String>, user_suffix: Option<String>) -> (target:
        Self)
        ensures
            target@ == (ChannelTargetView {
                id: id@,
                user_prefix: optional_text(user_prefix),
                user_suffix: optional_text(user_suffix),
            }),
    {
        ChannelTarget { id, user_prefix, user_suffix }
    }

    /// The id of the channel.
    pub fn id(&self) -> (id: &String)
        ensures
            id@ == self@.id,
    {
        &self.id
    }

    /// The configured prefix, if one is set.
    pub fn user_prefix(&self) -> (prefix: &Option<String>)
        ensures
            optional_text(*prefix) == self@.user_prefix,
    {
        &self.user_prefix
    }

    /// The configured suffix, if one is set.
    pub fn user_suffix(&self) -> (suffix: &Option<String>)
        ensures
            optional_text(*suffix) == self@.user_suffix,
    {
        &self.user_suffix
    }

    /// The prefix for names in this channel; empty where none is set.
    pub fn prefix(&self) -> (prefix: &str)
        ensures
            prefix@ == self@.prefix(),
    {
        match &self.user_prefix {
            Some(p) => p.as_str(),
            None => {
                proof {
                    reveal_strlit("");
                    assert(""@ =~= Seq::<char>::empty());
                }
                ""
            },
        }
    }

    /// The suffix for names in this channel; empty where none is set.
    pub fn suffix(&self) -> (suffix: &str)
        ensures
            suffix@ == self@.suffix(),
    {
        match &self.user_suffix {
            Some(s) => s.as_str(),
            None => {
                proof {
                    reveal_strlit("");
                    assert(""@ =~= Seq::<char>::empty());
                }
                ""
            },
        }
    }
}

/// The targets of a list, as plain values.
pub open spec fn targets_view(targets: Seq<ChannelTarget>) -> Seq<ChannelTargetView> {
    targets.map_values(|target: ChannelTarget| target@)
}

/// The routes of a list, as pairs of a source and its targets.
pub open spec fn route_pairs(routes: Seq<(String, Vec<ChannelTarget>)>) -> Seq<
    (Seq<char>, Seq<ChannelTargetView>),
> {
    routes.map_values(|route: (String, Vec<ChannelTarget>)| (route.0@, targets_view(route.1@)))
}

/// The targets that `routes` has for `source`: none where it does not name
/// the source.
pub open spec fn targets_of(
    routes: Map<Seq<char>, Seq<ChannelTargetView>>,
    source: Seq<char>,
) -> Seq<ChannelTargetView> {
    if routes.contains_key(source) {
        routes[source]
    } else {
        Seq::empty()
    }
}

/// For each source channel the ordered list of channels that receive what is
/// said there. No source occurs twice.
#[derive(Debug)]
pub struct RoutingTable {
    routes: Vec<(String, Vec<ChannelTarget>)>,
}

impl View for RoutingTable {
    type V = Map<Seq<char>, Seq<ChannelTargetView>>;

    closed spec fn view(&self) -> Map<Seq<char>, Seq<ChannelTargetView>> {
        assoc_map(route_pairs(self.routes@))
    }
}

impl RoutingTable {
    #[verifier::type_invariant]
    spec fn well_formed(self) -> bool {
        distinct_keys(route_pairs(self.routes@))
    }

    /// The table without any route.
    pub fn new() -> (table: RoutingTable)
        ensures
            table@ == Map::<Seq<char>, Seq<ChannelTargetView>>::empty(),
    {
        let routes: Vec<(String, Vec<ChannelTarget>)> = Vec::new();
        proof {
            lemma_assoc_empty::<Seq<ChannelTargetView>>();
            assert(route_pairs(routes@) =~= Seq::<(Seq<char>, Seq<ChannelTargetView>)>::empty());
        }
        RoutingTable { routes }
    }

    /// The number of source channels that the table names.
    pub fn len(&self) -> (count: usize)
        ensures
            self@.dom().finite(),
            count == self@.len(),
    {
        proof {
            use_type_invariant(self);
            lemma_assoc_len(route_pairs(self.routes@));
        }
        self.routes.len()
    }

    /// The position of the route of `source`, if there is one.
    fn find(&self, source: &String) -> (found: Option<usize>)
        ensures
            match found {
                Some(i) => i < self.routes@.len() && self.routes@[i as int].0@ == source@,
                None => !has_key(route_pairs(self.routes@), source@),
            },
    {
        let mut i: usize = 0;
        while i < self.routes.len()
            invariant
                i <= self.routes@.len(),
                forall|j: int| 0 <= j < i ==> (#[trigger] self.routes@[j]).0@ != source@,
            decreases self.routes@.len() - i,
        {
            if self.routes[i].0 == *source {
                return Some(i);
            }
            i += 1;
        }
        proof {
            let pairs = route_pairs(self.routes@);
            assert forall|j: int| 0 <= j < pairs.len() implies (#[trigger] pairs[j]).0
                != source@ by {
                assert(self.routes@[j].0@ != source@);
            }
        }
        None
    }

    /// The targets configured for `source`, in their configured order.
    pub fn get(&self, source: &str) -> (targets: Option<&Vec<ChannelTarget>>)
        ensures
            match targets {
                Some(list) => self@.contains_key(source@) && self@[source@] == targets_view(
                    list@,
                ),
                None => !self@.contains_key(source@),
            },
    {
        let needle = source.to_owned();
        match self.find(&needle) {
            Some(i) => {
                proof {
                    use_type_invariant(self);
                    lemma_assoc_entry(route_pairs(self.routes@), i as int);
                }
                Some(&self.routes[i].1)
            },
            None => {
                proof {
                    lemma_assoc_absent(route_pairs(self.routes@), source@);
                }
                None
            },
        }
    }

    /// Adds `target` behind the targets that `source` already has.
    pub fn add_target(&mut self, source: String, target: ChannelTarget)
        ensures
            final(self)@ == old(self)@.insert(
                source@,
                targets_of(old(self)@, source@).push(target@),
            ),
    {
        proof {
            use_type_invariant(&*self);
        }
        let ghost before = route_pairs(self.routes@);
        let found = self.find(&source);
        let mut routes: Vec<(String, Vec<ChannelTarget>)> = Vec::new();
        proof {
            lemma_assoc_empty::<Seq<ChannelTargetView>>();
            assert(route_pairs(routes@) =~= Seq::<(Seq<char>, Seq<ChannelTargetView>)>::empty());
        }
        std::mem::swap(&mut self.routes, &mut routes);
        match found {
            Some(i) => {
                let taken = routes.remove(i);
                let name = taken.0;
                let mut targets = taken.1;
                let ghost earlier = targets_view(targets@);
                targets.push(target);
                proof {
                    assert(targets_view(targets@) =~= earlier.push(target@));
                    lemma_assoc_entry(before, i as int);
                    lemma_assoc_update(before, i as int, earlier.push(target@));
                }
                routes.insert(i, (name, targets));
                proof {
                    assert(route_pairs(routes@) =~= before.update(
                        i as int,
                        (before[i as int].0, earlier.push(target@)),
                    ));
                }
            },
            None => {
                let mut targets: Vec<ChannelTarget> = Vec::new();
                targets.push(target);
                proof {
                    assert(targets_view(targets@) =~= Seq::<ChannelTargetView>::empty().push(
                        target@,
                    ));
                    lemma_assoc_absent(before, source@);
                    lemma_assoc_push(before, source@, targets_view(targets@));
                }
                routes.push((source, targets));
                proof {
                    assert(route_pairs(routes@) =~= before.push(
                        (source@, Seq::<ChannelTargetView>::empty().push(target@)),
                    ));
                }
            },
        }
        self.routes = routes;
    }
}

/// One record of the routing configuration: what is said in `source` is
/// relayed to `target`.
#[derive(Debug)]
pub struct ProxiedChannel {
    pub source: String,
    pub target: String,
    pub user_prefix: Option<String>,
    pub user_suffix: Option<String>,
}

/// One record of the routing configuration, as plain values.
pub struct ProxiedChannelView {
    pub source: Seq<char>,
    pub target: Seq<char>,
    pub user_prefix: Option<Seq<char>>,
    pub user_suffix: Option<Seq<char>>,
}

impl ProxiedChannelView {
    /// The target that the record configures.
    pub open spec fn channel_target(self) -> ChannelTargetView {
        ChannelTargetView {
            id: self.target,
            user_prefix: self.user_prefix,
            user_suffix: self.user_suffix,
        }
    }
}

impl View for ProxiedChannel {
    type V = ProxiedChannelView;

    open spec fn view(&self) -> ProxiedChannelView {
        ProxiedChannelView {
            source: self.source@,
            target: self.target@,
            user_prefix: optional_text(self.user_prefix),
            user_suffix: optional_text(self.user_suffix),
        }
    }
}

/// The records of a list, as plain values.
pub open spec fn records_view(records: Seq<ProxiedChannel>) -> Seq<ProxiedChannelView> {
    records.map_values(|record: ProxiedChannel| record@)
}

/// Some record of `records` relays from `source`.
pub open spec fn names_source(records: Seq<ProxiedChannelView>, source: Seq<char>) -> bool {
    exists|i: int| 0 <= i < records.len() && (#[trigger] records[i]).source == source
}

/// The targets that `records` configure for `source`, in the order of the
/// records.
pub open spec fn targets_for(records: Seq<ProxiedChannelView>, source: Seq<char>) -> Seq<
    ChannelTargetView,
> {
    records.filter(|record: ProxiedChannelView| record.source == source).map_values(
        |record: ProxiedChannelView| record.channel_target(),
    )
}

/// The routing table that a list of records describes: every source that a
/// record names, with the targets of its records in their order.
pub open spec fn routes_of(records: Seq<ProxiedChannelView>) -> Map<
    Seq<char>,
    Seq<ChannelTargetView>,
> {
    Map::new(
        |source: Seq<char>| names_source(records, source),
        |source: Seq<char>| targets_for(records, source),
    )
}

/// One more record adds its target behind those that its source had.
pub proof fn lemma_routes_of_push(records: Seq<ProxiedChannelView>, record: ProxiedChannelView)
    ensures
        routes_of(records.push(record)) == routes_of(records).insert(
            record.source,
            targets_of(routes_of(records), record.source).push(record.channel_target()),
        ),
{
    let grown = records.push(record);
    let expected = routes_of(records).insert(
        record.source,
        targets_of(routes_of(records), record.source).push(record.channel_target()),
    );
    assert forall|source: Seq<char>| #[trigger]
        routes_of(grown).contains_key(source) == expected.contains_key(source) by {
        if names_source(grown, source) {
            let i = choose|i: int| 0 <= i < grown.len() && (#[trigger] grown[i]).source == source;
            if i < records.len() {
                assert(records[i].source == source);
            }
        }
        if source == record.source {
            assert(grown[records.len() as int].source == source);
        } else if names_source(records, source) {
            let i = choose|i: int|
                0 <= i < records.len() && (#[trigger] records[i]).source == source;
            assert(grown[i].source == source);
        }
    }
    assert forall|source: Seq<char>| #[trigger] routes_of(grown).contains_key(source) implies routes_of(
        grown,
    )[source] == expected[source] by {
        let keep = |r: ProxiedChannelView| r.source == source;
        records.lemma_filter_push(record, keep);
        if source == record.source {
            assert(grown.filter(keep) == records.filter(keep).push(record));
            assert(targets_for(grown, source) =~= targets_for(records, source).push(
                record.channel_target(),
            ));
            if !names_source(records, source) {
                assert forall|i: int| 0 <= i < records.len() implies !keep(#[trigger] records[i]) by {}
                records.lemma_all_neg_filter_empty(keep);
                assert(targets_for(records, source) =~= Seq::<ChannelTargetView>::empty());
            }
        } else {
            assert(grown.filter(keep) == records.filter(keep));
        }
    }
    assert(routes_of(grown) =~= expected);
}

impl RoutingTable {
    /// Groups the records of a routing configuration by their source.
    ///
    /// The targets of a source stand in the order of their records.
    pub fn from_records(records: Vec<ProxiedChannel>) -> (table: RoutingTable)
        ensures
            table@ == routes_of(records_view(records@)),
    {
        let mut table = RoutingTable::new();
        let ghost all = records_view(records@);
        proof {
            assert(routes_of(Seq::<ProxiedChannelView>::empty()) =~= Map::<
                Seq<char>,
                Seq<ChannelTargetView>,
            >::empty());
        }
        for record in it: records
            invariant
                it.seq() == records@,
                all == records_view(records@),
                table@ == routes_of(all.take(it.index() as int)),
        {
            proof {
                lemma_routes_of_push(all.take(it.index() as int), record@);
                assert(all.take(it.index() + 1) =~= all.take(it.index() as int).push(record@));
            }
            let target = ChannelTarget::new(record.target, record.user_prefix, record.user_suffix);
            table.add_target(record.source, target);
        }
        proof {
            assert(all.take(all.len() as int) =~= all);
        }
        table
    }
}

} // verus!
