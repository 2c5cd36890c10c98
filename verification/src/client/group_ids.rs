//! Iterating through the command groups of the device.
//!
//! The iteration does not talk to the device itself: it says what has to be queried next, and
//! takes the outcome to get to the following element.

use super::MCUmgrClient;
use crate::cbor::Item;
use crate::commands::enumeration::{GroupCount, GroupId};
use crate::commands::{CommandHeader, McuMgrCommand, Request};
use crate::device::{
    arguments, law_arguments_are_read_back, lemma_short_none, lemma_short_single,
};
use crate::error::MCUmgrClientError;
use vstd::prelude::*;

verus! {

/// An iteration through all command groups of the device.
#[derive(Clone, Copy, Debug, PartialEq, Eq, Structural)]
pub struct GroupIdIter {
    /// The index of the next group
    pub index: u16,
    /// The number of groups, once it is known
    pub num_elements: Option<u16>,
}

/// What has to be queried from the device to get to the next element.
#[derive(Clone, Copy, Debug, PartialEq, Eq, Structural)]
pub enum GroupIdQuery {
    /// The number of groups
    Count,
    /// The ID of the group with the given index
    Id(u16),
    /// Nothing, there are no more elements
    End,
}

impl GroupIdQuery {
    /// The request for what has to be queried, if there is anything.
    pub fn request<T>(&self, client: &MCUmgrClient<T>) -> (r: Option<Request>)
        ensures
            match *self {
                GroupIdQuery::Count => r is Some && r->0.carries(GroupCount) && r->0.use_retries,
                GroupIdQuery::Id(index) => {
                    &&& r is Some
                    &&& r->0.carries((GroupId { index: Some(index) }))
                    &&& r->0.use_retries
                },
                GroupIdQuery::End => r is None,
            },
    {
        match self {
            GroupIdQuery::Count => Some(client.enum_get_group_count()),
            GroupIdQuery::Id(index) => Some(client.enum_get_group_id(*index)),
            GroupIdQuery::End => None,
        }
    }
}

impl GroupIdIter {
    /// The iteration before its first element.
    pub open spec fn start() -> GroupIdIter {
        GroupIdIter { index: 0, num_elements: None }
    }

    /// What has to be queried next.
    pub open spec fn query(self) -> GroupIdQuery {
        match self.num_elements {
            None => GroupIdQuery::Count,
            Some(n) => if self.index < n {
                GroupIdQuery::Id(self.index)
            } else {
                GroupIdQuery::End
            },
        }
    }

    /// The iteration after the query for the number of groups. If it failed, there are no
    /// elements left.
    pub open spec fn counted(self, count: Result<u16, MCUmgrClientError>) -> GroupIdIter {
        match count {
            Ok(n) => GroupIdIter { num_elements: Some(n), ..self },
            Err(_) => GroupIdIter { num_elements: Some(0), ..self },
        }
    }

    /// The iteration after the query for the ID of a group. If it failed, there are no elements
    /// left.
    pub open spec fn advanced(self, id: Result<u16, MCUmgrClientError>) -> GroupIdIter {
        match id {
            Ok(_) => GroupIdIter { index: (self.index + 1) as u16, ..self },
            Err(_) => GroupIdIter { index: self.num_elements->0, ..self },
        }
    }

    /// Starts an iteration.
    pub fn begin() -> (iter: GroupIdIter)
        ensures
            iter == GroupIdIter::start(),
    {
        GroupIdIter { index: 0, num_elements: None }
    }

    /// Returns what has to be queried next.
    pub fn next_query(&self) -> (q: GroupIdQuery)
        ensures
            q == self.query(),
    {
        match self.num_elements {
            None => GroupIdQuery::Count,
            Some(n) => if self.index >= n {
                GroupIdQuery::End
            } else {
                GroupIdQuery::Id(self.index)
            },
        }
    }

    /// Continues with the number of groups. Returns an element if the query failed.
    pub fn on_count(&mut self, count: Result<u16, MCUmgrClientError>) -> (item: Option<
        Result<u16, MCUmgrClientError>,
    >)
        requires
            old(self).query() == GroupIdQuery::Count,
        ensures
            *final(self) == old(self).counted(count),
            item == match count {
                Ok(_) => None::<Result<u16, MCUmgrClientError>>,
                Err(err) => Some(Err(err)),
            },
    {
        match count {
            Ok(n) => {
                self.num_elements = Some(n);
                None
            },
            Err(err) => {
                self.num_elements = Some(0);
                Some(Err(err))
            },
        }
    }

    /// Continues with the ID of a group. Returns the element.
    pub fn on_id(&mut self, id: Result<u16, MCUmgrClientError>) -> (item: Result<
        u16,
        MCUmgrClientError,
    >)
        requires
            old(self).query() is Id,
        ensures
            *final(self) == old(self).advanced(id),
            item == id,
    {
        match &id {
            Ok(_) => {
                self.index = self.index + 1;
            },
            Err(_) => {
                if let Some(n) = self.num_elements {
                    self.index = n;
                }
            },
        }
        id
    }
}

/// The elements of an iteration through the groups of a device that supports the given groups.
pub open spec fn enumerated(iter: GroupIdIter, groups: Seq<u16>) -> Seq<
    Result<u16, MCUmgrClientError>,
>
    decreases
            match iter.num_elements {
                None => 1int,
                Some(_) => 0,
            },
            match iter.num_elements {
                None => 0,
                Some(n) => n - iter.index,
            },
{
    match iter.query() {
        GroupIdQuery::Count => enumerated(iter.counted(Ok(groups.len() as u16)), groups),
        GroupIdQuery::Id(index) => seq![Ok::<u16, MCUmgrClientError>(groups[index as int])]
            + enumerated(iter.advanced(Ok(groups[index as int])), groups),
        GroupIdQuery::End => Seq::empty(),
    }
}

proof fn lemma_enumerated(iter: GroupIdIter, groups: Seq<u16>)
    requires
        groups.len() <= u16::MAX,
        iter.num_elements == Some(groups.len() as u16),
        iter.index <= groups.len(),
    ensures
        enumerated(iter, groups) == groups.skip(iter.index as int).map_values(
            |id: u16| Ok::<u16, MCUmgrClientError>(id),
        ),
    decreases groups.len() - iter.index,
{
    if iter.index < groups.len() {
        lemma_enumerated(iter.advanced(Ok(groups[iter.index as int])), groups);
    }
    assert(enumerated(iter, groups) =~= groups.skip(iter.index as int).map_values(
        |id: u16| Ok::<u16, MCUmgrClientError>(id),
    ));
}

/// Iterating through the groups of a device yields the same IDs, in the same order, as
/// querying all of them at once.
pub proof fn law_group_ids_are_enumerated(groups: Seq<u16>)
    requires
        groups.len() <= u16::MAX,
    ensures
        enumerated(GroupIdIter::start(), groups) == groups.map_values(
            |id: u16| Ok::<u16, MCUmgrClientError>(id),
        ),
{
    lemma_enumerated(GroupIdIter::start().counted(Ok(groups.len() as u16)), groups);
    assert(groups.skip(0) =~= groups);
}

/// The iteration ends after the first error.
pub proof fn law_group_ids_end_after_error(iter: GroupIdIter, err: MCUmgrClientError)
    ensures
        iter.query() is Count ==> iter.counted(Err(err)).query() is End,
        iter.query() is Id ==> iter.advanced(Err(err)).query() is End,
{
}

/// What a device reads from the request for the next query. The number of groups is asked for
/// without arguments, and a group by its index.
pub proof fn law_group_query_is_read<T>(
    client: MCUmgrClient<T>,
    query: GroupIdQuery,
    r: Option<Request>,
)
    requires
        call_ensures(GroupIdQuery::request::<T>, (&query, &client), r),
    ensures
        r is None <==> query == GroupIdQuery::End,
        query == GroupIdQuery::Count ==> {
            &&& r->0.header == (CommandHeader { write: false, group: 10, command: 0 })
            &&& r->0.use_retries
            &&& arguments(r->0.payload@) == Some(Seq::<(Seq<char>, Item)>::empty())
        },
        query matches GroupIdQuery::Id(index) ==> {
            &&& r->0.header == (CommandHeader { write: false, group: 10, command: 2 })
            &&& r->0.use_retries
            &&& arguments(r->0.payload@) == Some(
                seq![("index"@, Item::Unsigned(index as u64))],
            )
        },
{
    lemma_short_none();
    match query {
        GroupIdQuery::Count => {
            let none = Seq::<(Seq<char>, Item)>::empty();
            assert(GroupCount.fields_spec() =~= none);
            law_arguments_are_read_back(none);
        },
        GroupIdQuery::Id(index) => {
            let expected = seq![("index"@, Item::Unsigned(index as u64))];
            reveal_strlit("index");
            lemma_short_single("index"@, Item::Unsigned(index as u64));
            assert((GroupId { index: Some(index) }).fields_spec() =~= expected);
            law_arguments_are_read_back(expected);
        },
        GroupIdQuery::End => {},
    }
}

/// An iteration asks for the number of groups first. It then goes on with the first group, unless
/// there is none.
pub proof fn law_group_count_comes_first<T>(
    client: MCUmgrClient<T>,
    first: GroupIdQuery,
    iter: &mut GroupIdIter,
    count: u16,
    item: Option<Result<u16, MCUmgrClientError>>,
    after: GroupIdIter,
    second: GroupIdQuery,
)
    requires
        call_ensures(MCUmgrClient::<T>::enum_iter_group_ids, (&client,), *old(iter)),
        call_ensures(GroupIdIter::next_query, (&*old(iter),), first),
        call_ensures(GroupIdIter::on_count, (iter, Ok::<u16, MCUmgrClientError>(count)), item),
        call_ensures(GroupIdIter::next_query, (&after,), second),
    ensures
        first == GroupIdQuery::Count,
        item is None,
        *final(iter) == after ==> second == if count == 0 {
            GroupIdQuery::End
        } else {
            GroupIdQuery::Id(0)
        },
{
}

/// An iteration yields the ID of each group as the device reports it, and then goes on with the
/// group after it, up to the last one.
pub proof fn law_groups_are_visited_in_order(
    iter: &mut GroupIdIter,
    query: GroupIdQuery,
    id: u16,
    item: Result<u16, MCUmgrClientError>,
    after: GroupIdIter,
    next: GroupIdQuery,
)
    requires
        old(iter).num_elements is Some,
        call_ensures(GroupIdIter::next_query, (&*old(iter),), query),
        query is Id,
        call_ensures(GroupIdIter::on_id, (iter, Ok::<u16, MCUmgrClientError>(id)), item),
        call_ensures(GroupIdIter::next_query, (&after,), next),
    ensures
        query == GroupIdQuery::Id(old(iter).index),
        old(iter).index < old(iter).num_elements->0,
        item == Ok::<u16, MCUmgrClientError>(id),
        *final(iter) == after ==> {
            &&& after.index == old(iter).index + 1
            &&& after.num_elements == old(iter).num_elements
            &&& next == if after.index == after.num_elements->0 {
                GroupIdQuery::End
            } else {
                GroupIdQuery::Id(after.index)
            }
        },
{
}

/// An error is yielded as the last element, whether it is about the number of groups or about one
/// of them.
pub proof fn law_group_error_is_last(
    counting: &mut GroupIdIter,
    visiting: &mut GroupIdIter,
    err: MCUmgrClientError,
    count_item: Option<Result<u16, MCUmgrClientError>>,
    id_item: Result<u16, MCUmgrClientError>,
    after: GroupIdIter,
    next: GroupIdQuery,
)
    requires
        old(counting).num_elements is None,
        call_ensures(
            GroupIdIter::on_count,
            (counting, Err::<u16, MCUmgrClientError>(err)),
            count_item,
        ),
        old(visiting).num_elements is Some,
        old(visiting).index < old(visiting).num_elements->0,
        call_ensures(GroupIdIter::on_id, (visiting, Err::<u16, MCUmgrClientError>(err)), id_item),
        call_ensures(GroupIdIter::next_query, (&after,), next),
    ensures
        count_item == Some(Err::<u16, MCUmgrClientError>(err)),
        id_item == Err::<u16, MCUmgrClientError>(err),
        *final(counting) == after || *final(visiting) == after ==> next == GroupIdQuery::End,
{
}

} // verus!
