//! A named group of tickets that gates one readiness transition.

use vstd::prelude::*;
use crate::registry::AssetTicket;

verus! {

/// The tickets that must all resolve before the dependent stage may proceed.
/// Membership is fixed when the collection is made.
#[derive(Debug)]
pub struct AssetCollection {
    name: String,
    tickets: Vec<AssetTicket>,
}

impl View for AssetCollection {
    type V = Seq<AssetTicket>;

    closed spec fn view(&self) -> Seq<AssetTicket> {
        self.tickets@
    }
}

impl AssetCollection {
    /// The name the collection was made with.
    pub closed spec fn label(&self) -> Seq<char> {
        self.name@
    }

    /// A collection of exactly these tickets, in this order.
    pub fn new(name: String, tickets: Vec<AssetTicket>) -> (collection: AssetCollection)
        ensures
            collection@ == tickets@,
            collection.label() == name@,
    {
        AssetCollection { name, tickets }
    }

    /// The name the collection was made with.
    pub fn name(&self) -> (name: &String)
        ensures
            name@ == self.label(),
    {
        &self.name
    }

    /// How many tickets the collection holds.
    pub fn len(&self) -> (n: usize)
        ensures
            n == self@.len(),
    {
        self.tickets.len()
    }

    /// Whether the collection holds no ticket. An empty collection is always ready.
    pub fn is_empty(&self) -> (empty: bool)
        ensures
            empty == (self@.len() == 0),
    {
        self.tickets.len() == 0
    }

    /// The members, in the order the collection was made with.
    pub fn tickets(&self) -> (tickets: &Vec<AssetTicket>)
        ensures
            tickets@ == self@,
    {
        &self.tickets
    }

    /// The member at `index`, in the order the collection was made with.
    pub fn ticket(&self, index: usize) -> (ticket: Option<AssetTicket>)
        ensures
            ticket == if index < self@.len() {
                Some(self@[index as int])
            } else {
                None
            },
    {
        if index < self.tickets.len() {
            Some(self.tickets[index])
        } else {
            None
        }
    }

    /// Whether `ticket` is a member.
    pub fn contains(&self, ticket: AssetTicket) -> (member: bool)
        ensures
            member == self@.contains(ticket),
    {
        let mut i: usize = 0;
        while i < self.tickets.len()
            invariant
                i <= self.tickets.len(),
                forall|j: int| 0 <= j < i ==> self.tickets@[j] != ticket,
            decreases self.tickets.len() - i,
        {
            if self.tickets[i] == ticket {
                return true;
            }
            i = i + 1;
        }
        false
    }
}

} // verus!
