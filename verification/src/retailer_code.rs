//! Retailer code definitions: a closed set of retailer identifiers with a
//! lowercase string code each, split into three categories.
//!
//! - **existing**: active production retailers (31)
//! - **upcoming**: retailers planned but not yet ready (2)
//! - **test**: fake retailers for development and testing (3)
//!
//! This is a static lookup parallel to, and independent of, the credential
//! registry: codes are parsed ASCII-case-insensitively and printed in lower
//! case.

use vstd::prelude::*;
use vstd::string::StringExecFns;

use crate::ascii::{ieq, str_ieq};

verus! {

/// Failure to parse a retailer code, carrying the rejected input.
#[derive(Debug)]
pub enum RetailerCodeError {
    Invalid(String),
}

/// Retailer identifier.
#[derive(Debug, Clone, Copy, PartialEq, Eq, Hash)]
pub enum RetailerCode {
    // Production - Existing
    Admhr,
    Advenahr,
    Aloalohr,
    Bazzarhr,
    Bigbanghr,
    Chipotekahr,
    Dmhr,
    Ekupihr,
    Elipsohr,
    Emmezetahr,
    Finderhr,
    Harveynormanhr,
    Hgspothr,
    Instarinformatikahr,
    Iqcentarhr,
    Konzumhr,
    Linkshr,
    Makromikrohr,
    Mallhr,
    Merkuryhr,
    Mihr,
    Mikronishr,
    Protishr,
    Racunalahr,
    Ronishr,
    Svijetmedijahr,
    Teammediahr,
    Tehnomaghr,
    Vacomhr,
    Bigbangsi,
    Harveynormansi,
    // Production - Upcoming
    Istylehr,
    Storecomhr,
    // Test
    BoxClub,
    CheapyMart,
    ShadyShop,
}

/// The lowercase string code of each retailer.
pub open spec fn code_seq(c: RetailerCode) -> Seq<char> {
    match c {
        RetailerCode::Admhr => "admhr"@,
        RetailerCode::Advenahr => "advenahr"@,
        RetailerCode::Aloalohr => "aloalohr"@,
        RetailerCode::Bazzarhr => "bazzarhr"@,
        RetailerCode::Bigbanghr => "bigbanghr"@,
        RetailerCode::Chipotekahr => "chipotekahr"@,
        RetailerCode::Dmhr => "dmhr"@,
        RetailerCode::Ekupihr => "ekupihr"@,
        RetailerCode::Elipsohr => "elipsohr"@,
        RetailerCode::Emmezetahr => "emmezetahr"@,
        RetailerCode::Finderhr => "finderhr"@,
        RetailerCode::Harveynormanhr => "harveynormanhr"@,
        RetailerCode::Hgspothr => "hgspothr"@,
        RetailerCode::Instarinformatikahr => "instarinformatikahr"@,
        RetailerCode::Iqcentarhr => "iqcentarhr"@,
        RetailerCode::Konzumhr => "konzumhr"@,
        RetailerCode::Linkshr => "linkshr"@,
        RetailerCode::Makromikrohr => "makromikrohr"@,
        RetailerCode::Mallhr => "mallhr"@,
        RetailerCode::Merkuryhr => "merkuryhr"@,
        RetailerCode::Mihr => "mihr"@,
        RetailerCode::Mikronishr => "mikronishr"@,
        RetailerCode::Protishr => "protishr"@,
        RetailerCode::Racunalahr => "racunalahr"@,
        RetailerCode::Ronishr => "ronishr"@,
        RetailerCode::Svijetmedijahr => "svijetmedijahr"@,
        RetailerCode::Teammediahr => "teammediahr"@,
        RetailerCode::Tehnomaghr => "tehnomaghr"@,
        RetailerCode::Vacomhr => "vacomhr"@,
        RetailerCode::Bigbangsi => "bigbangsi"@,
        RetailerCode::Harveynormansi => "harveynormansi"@,
        RetailerCode::Istylehr => "istylehr"@,
        RetailerCode::Storecomhr => "storecomhr"@,
        RetailerCode::BoxClub => "boxclub"@,
        RetailerCode::CheapyMart => "cheapymart"@,
        RetailerCode::ShadyShop => "shadyshop"@,
    }
}

/// The retailer whose code matches `s` ASCII-case-insensitively, if any.
pub open spec fn parse_spec(s: Seq<char>) -> Option<RetailerCode> {
    if ieq(s, "admhr"@) {
        Some(RetailerCode::Admhr)
    } else if ieq(s, "advenahr"@) {
        Some(RetailerCode::Advenahr)
    } else if ieq(s, "aloalohr"@) {
        Some(RetailerCode::Aloalohr)
    } else if ieq(s, "bazzarhr"@) {
        Some(RetailerCode::Bazzarhr)
    } else if ieq(s, "bigbanghr"@) {
        Some(RetailerCode::Bigbanghr)
    } else if ieq(s, "chipotekahr"@) {
        Some(RetailerCode::Chipotekahr)
    } else if ieq(s, "dmhr"@) {
        Some(RetailerCode::Dmhr)
    } else if ieq(s, "ekupihr"@) {
        Some(RetailerCode::Ekupihr)
    } else if ieq(s, "elipsohr"@) {
        Some(RetailerCode::Elipsohr)
    } else if ieq(s, "emmezetahr"@) {
        Some(RetailerCode::Emmezetahr)
    } else if ieq(s, "finderhr"@) {
        Some(RetailerCode::Finderhr)
    } else if ieq(s, "harveynormanhr"@) {
        Some(RetailerCode::Harveynormanhr)
    } else if ieq(s, "hgspothr"@) {
        Some(RetailerCode::Hgspothr)
    } else if ieq(s, "instarinformatikahr"@) {
        Some(RetailerCode::Instarinformatikahr)
    } else if ieq(s, "iqcentarhr"@) {
        Some(RetailerCode::Iqcentarhr)
    } else if ieq(s, "konzumhr"@) {
        Some(RetailerCode::Konzumhr)
    } else if ieq(s, "linkshr"@) {
        Some(RetailerCode::Linkshr)
    } else if ieq(s, "makromikrohr"@) {
        Some(RetailerCode::Makromikrohr)
    } else if ieq(s, "mallhr"@) {
        Some(RetailerCode::Mallhr)
    } else if ieq(s, "merkuryhr"@) {
        Some(RetailerCode::Merkuryhr)
    } else if ieq(s, "mihr"@) {
        Some(RetailerCode::Mihr)
    } else if ieq(s, "mikronishr"@) {
        Some(RetailerCode::Mikronishr)
    } else if ieq(s, "protishr"@) {
        Some(RetailerCode::Protishr)
    } else if ieq(s, "racunalahr"@) {
        Some(RetailerCode::Racunalahr)
    } else if ieq(s, "ronishr"@) {
        Some(RetailerCode::Ronishr)
    } else if ieq(s, "svijetmedijahr"@) {
        Some(RetailerCode::Svijetmedijahr)
    } else if ieq(s, "teammediahr"@) {
        Some(RetailerCode::Teammediahr)
    } else if ieq(s, "tehnomaghr"@) {
        Some(RetailerCode::Tehnomaghr)
    } else if ieq(s, "vacomhr"@) {
        Some(RetailerCode::Vacomhr)
    } else if ieq(s, "bigbangsi"@) {
        Some(RetailerCode::Bigbangsi)
    } else if ieq(s, "harveynormansi"@) {
        Some(RetailerCode::Harveynormansi)
    } else if ieq(s, "istylehr"@) {
        Some(RetailerCode::Istylehr)
    } else if ieq(s, "storecomhr"@) {
        Some(RetailerCode::Storecomhr)
    } else if ieq(s, "boxclub"@) {
        Some(RetailerCode::BoxClub)
    } else if ieq(s, "cheapymart"@) {
        Some(RetailerCode::CheapyMart)
    } else if ieq(s, "shadyshop"@) {
        Some(RetailerCode::ShadyShop)
    } else {
        None
    }
}

/// The existing production retailers, in their canonical order.
pub open spec fn existing_codes() -> Seq<RetailerCode> {
    seq![
        RetailerCode::Admhr,
        RetailerCode::Advenahr,
        RetailerCode::Aloalohr,
        RetailerCode::Bazzarhr,
        RetailerCode::Bigbanghr,
        RetailerCode::Chipotekahr,
        RetailerCode::Dmhr,
        RetailerCode::Ekupihr,
        RetailerCode::Elipsohr,
        RetailerCode::Emmezetahr,
        RetailerCode::Finderhr,
        RetailerCode::Harveynormanhr,
        RetailerCode::Hgspothr,
        RetailerCode::Instarinformatikahr,
        RetailerCode::Iqcentarhr,
        RetailerCode::Konzumhr,
        RetailerCode::Linkshr,
        RetailerCode::Makromikrohr,
        RetailerCode::Mallhr,
        RetailerCode::Merkuryhr,
        RetailerCode::Mihr,
        RetailerCode::Mikronishr,
        RetailerCode::Protishr,
        RetailerCode::Racunalahr,
        RetailerCode::Ronishr,
        RetailerCode::Svijetmedijahr,
        RetailerCode::Teammediahr,
        RetailerCode::Tehnomaghr,
        RetailerCode::Vacomhr,
        RetailerCode::Bigbangsi,
        RetailerCode::Harveynormansi,
    ]
}

/// The upcoming production retailers, in their canonical order.
pub open spec fn upcoming_codes() -> Seq<RetailerCode> {
    seq![RetailerCode::Istylehr, RetailerCode::Storecomhr]
}

/// The test retailers, in their canonical order.
pub open spec fn test_codes() -> Seq<RetailerCode> {
    seq![RetailerCode::BoxClub, RetailerCode::CheapyMart, RetailerCode::ShadyShop]
}

/// Whether `c` is a test retailer.
pub open spec fn spec_is_test(c: RetailerCode) -> bool {
    c is BoxClub || c is CheapyMart || c is ShadyShop
}

/// Whether `c` is an upcoming retailer.
pub open spec fn spec_is_upcoming(c: RetailerCode) -> bool {
    c is Istylehr || c is Storecomhr
}

impl RetailerCode {
    /// Get all active production retailers ready for data collection (31).
    pub fn existing() -> (r: Vec<RetailerCode>)
        ensures
            r@ == existing_codes(),
    {
        let mut v: Vec<RetailerCode> = Vec::new();
        v.push(RetailerCode::Admhr);
        v.push(RetailerCode::Advenahr);
        v.push(RetailerCode::Aloalohr);
        v.push(RetailerCode::Bazzarhr);
        v.push(RetailerCode::Bigbanghr);
        v.push(RetailerCode::Chipotekahr);
        v.push(RetailerCode::Dmhr);
        v.push(RetailerCode::Ekupihr);
        v.push(RetailerCode::Elipsohr);
        v.push(RetailerCode::Emmezetahr);
        v.push(RetailerCode::Finderhr);
        v.push(RetailerCode::Harveynormanhr);
        v.push(RetailerCode::Hgspothr);
        v.push(RetailerCode::Instarinformatikahr);
        v.push(RetailerCode::Iqcentarhr);
        v.push(RetailerCode::Konzumhr);
        v.push(RetailerCode::Linkshr);
        v.push(RetailerCode::Makromikrohr);
        v.push(RetailerCode::Mallhr);
        v.push(RetailerCode::Merkuryhr);
        v.push(RetailerCode::Mihr);
        v.push(RetailerCode::Mikronishr);
        v.push(RetailerCode::Protishr);
        v.push(RetailerCode::Racunalahr);
        v.push(RetailerCode::Ronishr);
        v.push(RetailerCode::Svijetmedijahr);
        v.push(RetailerCode::Teammediahr);
        v.push(RetailerCode::Tehnomaghr);
        v.push(RetailerCode::Vacomhr);
        v.push(RetailerCode::Bigbangsi);
        v.push(RetailerCode::Harveynormansi);
        proof {
            assert(v@ =~= existing_codes());
        }
        v
    }

    /// Get upcoming production retailers not yet ready (2).
    pub fn upcoming() -> (r: Vec<RetailerCode>)
        ensures
            r@ == upcoming_codes(),
    {
        let mut v: Vec<RetailerCode> = Vec::new();
        v.push(RetailerCode::Istylehr);
        v.push(RetailerCode::Storecomhr);
        proof {
            assert(v@ =~= upcoming_codes());
        }
        v
    }

    /// Get test retailers for development (3).
    pub fn test_retailers() -> (r: Vec<RetailerCode>)
        ensures
            r@ == test_codes(),
    {
        let mut v: Vec<RetailerCode> = Vec::new();
        v.push(RetailerCode::BoxClub);
        v.push(RetailerCode::CheapyMart);
        v.push(RetailerCode::ShadyShop);
        proof {
            assert(v@ =~= test_codes());
        }
        v
    }

    /// Check if this is a test retailer.
    pub fn is_test(&self) -> (r: bool)
        ensures
            r == spec_is_test(*self),
    {
        matches!(self, RetailerCode::BoxClub | RetailerCode::CheapyMart | RetailerCode::ShadyShop)
    }

    /// Check if this is an upcoming retailer.
    pub fn is_upcoming(&self) -> (r: bool)
        ensures
            r == spec_is_upcoming(*self),
    {
        matches!(self, RetailerCode::Istylehr | RetailerCode::Storecomhr)
    }

    /// Convert to the lowercase string representation.
    pub fn as_str(&self) -> (r: &'static str)
        ensures
            r@ == code_seq(*self),
    {
        match self {
            RetailerCode::Admhr => "admhr",
            RetailerCode::Advenahr => "advenahr",
            RetailerCode::Aloalohr => "aloalohr",
            RetailerCode::Bazzarhr => "bazzarhr",
            RetailerCode::Bigbanghr => "bigbanghr",
            RetailerCode::Chipotekahr => "chipotekahr",
            RetailerCode::Dmhr => "dmhr",
            RetailerCode::Ekupihr => "ekupihr",
            RetailerCode::Elipsohr => "elipsohr",
            RetailerCode::Emmezetahr => "emmezetahr",
            RetailerCode::Finderhr => "finderhr",
            RetailerCode::Harveynormanhr => "harveynormanhr",
            RetailerCode::Hgspothr => "hgspothr",
            RetailerCode::Instarinformatikahr => "instarinformatikahr",
            RetailerCode::Iqcentarhr => "iqcentarhr",
            RetailerCode::Konzumhr => "konzumhr",
            RetailerCode::Linkshr => "linkshr",
            RetailerCode::Makromikrohr => "makromikrohr",
            RetailerCode::Mallhr => "mallhr",
            RetailerCode::Merkuryhr => "merkuryhr",
            RetailerCode::Mihr => "mihr",
            RetailerCode::Mikronishr => "mikronishr",
            RetailerCode::Protishr => "protishr",
            RetailerCode::Racunalahr => "racunalahr",
            RetailerCode::Ronishr => "ronishr",
            RetailerCode::Svijetmedijahr => "svijetmedijahr",
            RetailerCode::Teammediahr => "teammediahr",
            RetailerCode::Tehnomaghr => "tehnomaghr",
            RetailerCode::Vacomhr => "vacomhr",
            RetailerCode::Bigbangsi => "bigbangsi",
            RetailerCode::Harveynormansi => "harveynormansi",
            RetailerCode::Istylehr => "istylehr",
            RetailerCode::Storecomhr => "storecomhr",
            RetailerCode::BoxClub => "boxclub",
            RetailerCode::CheapyMart => "cheapymart",
            RetailerCode::ShadyShop => "shadyshop",
        }
    }

    /// Parse a retailer code, matching ASCII-case-insensitively.
    pub fn parse_str(s: &str) -> (r: Result<RetailerCode, RetailerCodeError>)
        ensures
            (match r {
                Ok(c) => parse_spec(s@) == Some(c),
                Err(e) => parse_spec(s@) is None && (e matches RetailerCodeError::Invalid(orig)
                    && orig@ == s@),
            }),
    {
        if str_ieq(s, "admhr") {
            Ok(RetailerCode::Admhr)
        } else if str_ieq(s, "advenahr") {
            Ok(RetailerCode::Advenahr)
        } else if str_ieq(s, "aloalohr") {
            Ok(RetailerCode::Aloalohr)
        } else if str_ieq(s, "bazzarhr") {
            Ok(RetailerCode::Bazzarhr)
        } else if str_ieq(s, "bigbanghr") {
            Ok(RetailerCode::Bigbanghr)
        } else if str_ieq(s, "chipotekahr") {
            Ok(RetailerCode::Chipotekahr)
        } else if str_ieq(s, "dmhr") {
            Ok(RetailerCode::Dmhr)
        } else if str_ieq(s, "ekupihr") {
            Ok(RetailerCode::Ekupihr)
        } else if str_ieq(s, "elipsohr") {
            Ok(RetailerCode::Elipsohr)
        } else if str_ieq(s, "emmezetahr") {
            Ok(RetailerCode::Emmezetahr)
        } else if str_ieq(s, "finderhr") {
            Ok(RetailerCode::Finderhr)
        } else if str_ieq(s, "harveynormanhr") {
            Ok(RetailerCode::Harveynormanhr)
        } else if str_ieq(s, "hgspothr") {
            Ok(RetailerCode::Hgspothr)
        } else if str_ieq(s, "instarinformatikahr") {
            Ok(RetailerCode::Instarinformatikahr)
        } else if str_ieq(s, "iqcentarhr") {
            Ok(RetailerCode::Iqcentarhr)
        } else if str_ieq(s, "konzumhr") {
            Ok(RetailerCode::Konzumhr)
        } else if str_ieq(s, "linkshr") {
            Ok(RetailerCode::Linkshr)
        } else if str_ieq(s, "makromikrohr") {
            Ok(RetailerCode::Makromikrohr)
        } else if str_ieq(s, "mallhr") {
            Ok(RetailerCode::Mallhr)
        } else if str_ieq(s, "merkuryhr") {
            Ok(RetailerCode::Merkuryhr)
        } else if str_ieq(s, "mihr") {
            Ok(RetailerCode::Mihr)
        } else if str_ieq(s, "mikronishr") {
            Ok(RetailerCode::Mikronishr)
        } else if str_ieq(s, "protishr") {
            Ok(RetailerCode::Protishr)
        } else if str_ieq(s, "racunalahr") {
            Ok(RetailerCode::Racunalahr)
        } else if str_ieq(s, "ronishr") {
            Ok(RetailerCode::Ronishr)
        } else if str_ieq(s, "svijetmedijahr") {
            Ok(RetailerCode::Svijetmedijahr)
        } else if str_ieq(s, "teammediahr") {
            Ok(RetailerCode::Teammediahr)
        } else if str_ieq(s, "tehnomaghr") {
            Ok(RetailerCode::Tehnomaghr)
        } else if str_ieq(s, "vacomhr") {
            Ok(RetailerCode::Vacomhr)
        } else if str_ieq(s, "bigbangsi") {
            Ok(RetailerCode::Bigbangsi)
        } else if str_ieq(s, "harveynormansi") {
            Ok(RetailerCode::Harveynormansi)
        } else if str_ieq(s, "istylehr") {
            Ok(RetailerCode::Istylehr)
        } else if str_ieq(s, "storecomhr") {
            Ok(RetailerCode::Storecomhr)
        } else if str_ieq(s, "boxclub") {
            Ok(RetailerCode::BoxClub)
        } else if str_ieq(s, "cheapymart") {
            Ok(RetailerCode::CheapyMart)
        } else if str_ieq(s, "shadyshop") {
            Ok(RetailerCode::ShadyShop)
        } else {
            Err(RetailerCodeError::Invalid(String::from_str(s)))
        }
    }
}

impl core::str::FromStr for RetailerCode {
    type Err = RetailerCodeError;

    fn from_str(s: &str) -> Result<RetailerCode, RetailerCodeError> {
        RetailerCode::parse_str(s)
    }
}

} // verus!
