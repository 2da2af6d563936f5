//! The playback orders and their cyclic succession.

use vstd::prelude::*;

verus! {

/// The order in which the catalog is browsed and played.
#[derive(Clone, Copy, Debug, PartialEq, Eq, Structural)]
pub enum Order {
    Shuffle,
    Album,
    Artist,
    Track,
}

impl Order {
    /// The order that follows `self`; after `Track` comes `Shuffle` again.
    pub open spec fn successor(self) -> Order {
        match self {
            Order::Shuffle => Order::Album,
            Order::Album => Order::Artist,
            Order::Artist => Order::Track,
            Order::Track => Order::Shuffle,
        }
    }

    /// The name under which the order is shown.
    pub open spec fn label(self) -> Seq<char> {
        match self {
            Order::Shuffle => "Shuffle"@,
            Order::Album => "Album"@,
            Order::Artist => "Artist"@,
            Order::Track => "Track"@,
        }
    }

    /// The order that a row of the option list stands for. A row below the
    /// list stands for `Shuffle`.
    pub open spec fn at_row(row: nat) -> Order {
        if row == 1 {
            Order::Album
        } else if row == 2 {
            Order::Artist
        } else if row == 3 {
            Order::Track
        } else {
            Order::Shuffle
        }
    }

    /// Returns the successor of `self`.
    pub fn next(&self) -> (r: Order)
        ensures
            r == self.successor(),
    {
        match self {
            Order::Shuffle => Order::Album,
            Order::Album => Order::Artist,
            Order::Artist => Order::Track,
            Order::Track => Order::Shuffle,
        }
    }

    /// Returns the name under which the order is shown.
    pub fn to_string(&self) -> (r: String)
        ensures
            r@ == self.label(),
    {
        match self {
            Order::Shuffle => "Shuffle".to_owned(),
            Order::Album => "Album".to_owned(),
            Order::Artist => "Artist".to_owned(),
            Order::Track => "Track".to_owned(),
        }
    }

    /// Returns the order that the given row of the option list stands for.
    pub fn from_row(row: usize) -> (r: Order)
        ensures
            r == Order::at_row(row as nat),
    {
        if row == 1 {
            Order::Album
        } else if row == 2 {
            Order::Artist
        } else if row == 3 {
            Order::Track
        } else {
            Order::Shuffle
        }
    }

    /// Succession is cyclic with period four, and no order follows itself.
    pub proof fn lemma_successor_cycle(self)
        ensures
            self.successor() != self,
            self.successor().successor() != self,
            self.successor().successor().successor() != self,
            self.successor().successor().successor().successor() == self,
    {
    }

    /// Two orders with the same name are the same order.
    pub proof fn lemma_label_injective(self, other: Order)
        requires
            self.label() == other.label(),
        ensures
            self == other,
    {
        reveal_strlit("Shuffle");
        reveal_strlit("Album");
        reveal_strlit("Artist");
        reveal_strlit("Track");
        assert("Shuffle"@.len() == 7 && "Album"@.len() == 5 && "Artist"@.len() == 6);
        assert("Track"@.len() == 5 && "Album"@[0] == 'A' && "Track"@[0] == 'T');
    }
}

} // verus!
