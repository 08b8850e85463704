use vstd::prelude::*;

verus! {

/// The six commodities that are traded.
#[derive(Clone, Copy, PartialEq, Eq, Structural, Debug, Hash)]
pub enum Drug {
    Cocaine,
    Heroin,
    Acid,
    Weed,
    Speed,
    Ludes,
}

/// Number of commodities.
pub const NUM_DRUGS: usize = 6;

/// The commodity stored at position `i` of the per-commodity tables.
pub open spec fn drug_at(i: int) -> Drug {
    if i == 0 {
        Drug::Cocaine
    } else if i == 1 {
        Drug::Heroin
    } else if i == 2 {
        Drug::Acid
    } else if i == 3 {
        Drug::Weed
    } else if i == 4 {
        Drug::Speed
    } else {
        Drug::Ludes
    }
}

impl Drug {
    /// Position of the commodity in the per-commodity tables.
    pub open spec fn idx(self) -> int {
        match self {
            Drug::Cocaine => 0,
            Drug::Heroin => 1,
            Drug::Acid => 2,
            Drug::Weed => 3,
            Drug::Speed => 4,
            Drug::Ludes => 5,
        }
    }

    /// Lower end of the daily price draw, in tens of dollars.
    pub open spec fn low(self) -> int {
        match self {
            Drug::Cocaine => 1500,
            Drug::Heroin => 500,
            Drug::Acid => 100,
            Drug::Weed => 30,
            Drug::Speed => 7,
            Drug::Ludes => 1,
        }
    }

    /// Upper end of the daily price draw, in tens of dollars.
    pub open spec fn high(self) -> int {
        match self {
            Drug::Cocaine => 3000,
            Drug::Heroin => 1400,
            Drug::Acid => 450,
            Drug::Weed => 90,
            Drug::Speed => 25,
            Drug::Ludes => 6,
        }
    }

    pub open spec fn name(self) -> Seq<char> {
        match self {
            Drug::Cocaine => "COCAINE"@,
            Drug::Heroin => "HEROIN"@,
            Drug::Acid => "ACID"@,
            Drug::Weed => "WEED"@,
            Drug::Speed => "SPEED"@,
            Drug::Ludes => "LUDES"@,
        }
    }

    /// The display name of the commodity.
    pub fn as_str(&self) -> (r: &'static str)
        ensures
            r@ == self.name(),
    {
        match self {
            Drug::Cocaine => "COCAINE",
            Drug::Heroin => "HEROIN",
            Drug::Acid => "ACID",
            Drug::Weed => "WEED",
            Drug::Speed => "SPEED",
            Drug::Ludes => "LUDES",
        }
    }

    pub fn index(&self) -> (r: usize)
        ensures
            r as int == self.idx(),
            r < NUM_DRUGS,
    {
        match self {
            Drug::Cocaine => 0,
            Drug::Heroin => 1,
            Drug::Acid => 2,
            Drug::Weed => 3,
            Drug::Speed => 4,
            Drug::Ludes => 5,
        }
    }

    pub fn from_index(i: usize) -> (d: Drug)
        requires
            i < NUM_DRUGS,
        ensures
            d == drug_at(i as int),
            d.idx() == i as int,
    {
        if i == 0 {
            Drug::Cocaine
        } else if i == 1 {
            Drug::Heroin
        } else if i == 2 {
            Drug::Acid
        } else if i == 3 {
            Drug::Weed
        } else if i == 4 {
            Drug::Speed
        } else {
            Drug::Ludes
        }
    }

    /// The bounds of the daily price draw, in tens of dollars.
    pub fn price_range(&self) -> (r: (i64, i64))
        ensures
            r.0 as int == self.low(),
            r.1 as int == self.high(),
            1 <= r.0 <= r.1 <= 3000,
    {
        match self {
            Drug::Cocaine => (1500, 3000),
            Drug::Heroin => (500, 1400),
            Drug::Acid => (100, 450),
            Drug::Weed => (30, 90),
            Drug::Speed => (7, 25),
            Drug::Ludes => (1, 6),
        }
    }
}

/// The commodity that a menu letter picks, in either case.
pub open spec fn drug_for_key(c: char) -> Option<Drug> {
    if c == 'c' || c == 'C' {
        Some(Drug::Cocaine)
    } else if c == 'h' || c == 'H' {
        Some(Drug::Heroin)
    } else if c == 'a' || c == 'A' {
        Some(Drug::Acid)
    } else if c == 'w' || c == 'W' {
        Some(Drug::Weed)
    } else if c == 's' || c == 'S' {
        Some(Drug::Speed)
    } else if c == 'l' || c == 'L' {
        Some(Drug::Ludes)
    } else {
        None
    }
}

/// The six places the player can travel to.
#[derive(Clone, Copy, PartialEq, Eq, Structural, Debug, Hash)]
pub enum Location {
    Bronx,
    Ghetto,
    CentralPark,
    Manhattan,
    ConeyIsland,
    Brooklyn,
}

/// The place that a travel-menu digit picks.
pub open spec fn location_for_key(c: char) -> Option<Location> {
    if c == '1' {
        Some(Location::Bronx)
    } else if c == '2' {
        Some(Location::Ghetto)
    } else if c == '3' {
        Some(Location::CentralPark)
    } else if c == '4' {
        Some(Location::Manhattan)
    } else if c == '5' {
        Some(Location::ConeyIsland)
    } else if c == '6' {
        Some(Location::Brooklyn)
    } else {
        None
    }
}

impl Location {
    pub open spec fn name(self) -> Seq<char> {
        match self {
            Location::Bronx => "BRONX"@,
            Location::Ghetto => "GHETTO"@,
            Location::CentralPark => "CENTRAL PARK"@,
            Location::Manhattan => "MANHATTAN"@,
            Location::ConeyIsland => "CONEY ISLAND"@,
            Location::Brooklyn => "BROOKLYN"@,
        }
    }

    /// The display name of the place.
    pub fn as_str(&self) -> (r: &'static str)
        ensures
            r@ == self.name(),
    {
        match self {
            Location::Bronx => "BRONX",
            Location::Ghetto => "GHETTO",
            Location::CentralPark => "CENTRAL PARK",
            Location::Manhattan => "MANHATTAN",
            Location::ConeyIsland => "CONEY ISLAND",
            Location::Brooklyn => "BROOKLYN",
        }
    }

    /// The place that a travel-menu digit picks, if any.
    pub fn from_key(c: char) -> (r: Option<Location>)
        ensures
            r == location_for_key(c),
    {
        match c {
            '1' => Some(Location::Bronx),
            '2' => Some(Location::Ghetto),
            '3' => Some(Location::CentralPark),
            '4' => Some(Location::Manhattan),
            '5' => Some(Location::ConeyIsland),
            '6' => Some(Location::Brooklyn),
            _ => None,
        }
    }
}

} // verus!
