use smoltcp::phy::Medium;
use vstd::prelude::*;

verus! {

/// The link medium that the host asks for.
#[derive(Debug, Clone, Copy, PartialEq, Eq, Structural)]
pub enum CMedium {
    Invalid,
    Ethernet,
    Ip,
    /// Reserved; this build of the stack does not support it.
    Ieee802154,
}

impl CMedium {
    /// The number that stands for this medium at the host boundary.
    pub open spec fn spec_code(self) -> u8 {
        match self {
            CMedium::Invalid => 0,
            CMedium::Ethernet => 2,
            CMedium::Ip => 3,
            CMedium::Ieee802154 => 4,
        }
    }

    /// The medium that a number stands for, if any.
    pub open spec fn spec_from_code(code: u8) -> Option<CMedium> {
        if code == 0 {
            Some(CMedium::Invalid)
        } else if code == 2 {
            Some(CMedium::Ethernet)
        } else if code == 3 {
            Some(CMedium::Ip)
        } else if code == 4 {
            Some(CMedium::Ieee802154)
        } else {
            None
        }
    }

    /// The medium that a number stands for, or `None` for a number that stands
    /// for none.
    pub fn from_code(code: u8) -> (r: Option<CMedium>)
        ensures
            r == Self::spec_from_code(code),
            r matches Some(m) ==> m.spec_code() == code,
    {
        match code {
            0 => Some(CMedium::Invalid),
            2 => Some(CMedium::Ethernet),
            3 => Some(CMedium::Ip),
            4 => Some(CMedium::Ieee802154),
            _ => None,
        }
    }

    /// The stack's medium for this one: Ethernet and IP are supported; the
    /// invalid medium and IEEE 802.15.4 are not.
    pub open spec fn spec_medium(self) -> Option<Medium> {
        match self {
            CMedium::Ethernet => Some(Medium::Ethernet),
            CMedium::Ip => Some(Medium::Ip),
            _ => None,
        }
    }

    /// The stack's medium for this one, or `None` when it is not supported.
    pub fn to_medium(self) -> (r: Option<Medium>)
        ensures
            r == self.spec_medium(),
    {
        match self {
            CMedium::Invalid => None,
            CMedium::Ethernet => Some(Medium::Ethernet),
            CMedium::Ip => Some(Medium::Ip),
            CMedium::Ieee802154 => None,
        }
    }
}

} // verus!
