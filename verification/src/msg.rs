//! The message model: a tree of nodes, each with an id, an ordered list of
//! raw attributes and an ordered list of child nodes, plus typed on-demand
//! attribute decoding. A decode whose stored byte length does not match the
//! requested type yields `None` ("not reported this cycle"), never an error.

use vstd::prelude::*;

verus! {

/// One raw attribute: an id and the undecoded bytes of its value.
pub struct Attribute {
    pub id: u16,
    pub value: Vec<u8>,
}

/// One node of a message tree.
pub struct Node {
    pub id: u16,
    pub attributes: Vec<Attribute>,
    pub children: Vec<Node>,
}

/// The first attribute with the given id, if any.
pub open spec fn spec_find_attribute(attrs: Seq<Attribute>, id: u16) -> Option<Attribute>
    decreases attrs.len(),
{
    if attrs.len() == 0 {
        None
    } else if attrs.first().id == id {
        Some(attrs.first())
    } else {
        spec_find_attribute(attrs.drop_first(), id)
    }
}

/// The attribute decoded as an unsigned byte: present with length 1.
pub open spec fn spec_attr_u8(n: Node, id: u16) -> Option<u8> {
    match spec_find_attribute(n.attributes@, id) {
        Some(a) => if a.value@.len() == 1 {
            Some(a.value@[0])
        } else {
            None
        },
        None => None,
    }
}

/// The attribute decoded as a little-endian unsigned 16-bit value:
/// present with length 2.
pub open spec fn spec_attr_u16(n: Node, id: u16) -> Option<u16> {
    match spec_find_attribute(n.attributes@, id) {
        Some(a) => if a.value@.len() == 2 {
            Some((a.value@[0] + 256 * a.value@[1]) as u16)
        } else {
            None
        },
        None => None,
    }
}

/// The attribute decoded as a little-endian signed 16-bit value
/// (two's complement): present with length 2.
pub open spec fn spec_attr_i16(n: Node, id: u16) -> Option<i16> {
    match spec_find_attribute(n.attributes@, id) {
        Some(a) => if a.value@.len() == 2 {
            Some(spec_i16_from_le(a.value@[0], a.value@[1]))
        } else {
            None
        },
        None => None,
    }
}

/// The signed 16-bit value with little-endian bytes `lo`, `hi`.
pub open spec fn spec_i16_from_le(lo: u8, hi: u8) -> i16 {
    if hi >= 128 {
        (lo + 256 * hi - 65536) as i16
    } else {
        (lo + 256 * hi) as i16
    }
}

/// The attribute taken as the bit pattern of a little-endian 32-bit value:
/// present with length 4.
pub open spec fn spec_attr_u32_bits(n: Node, id: u16) -> Option<u32> {
    match spec_find_attribute(n.attributes@, id) {
        Some(a) => if a.value@.len() == 4 {
            Some(
                (a.value@[0] + 256 * a.value@[1] + 65536 * a.value@[2] + 16777216 * a.value@[3])
                    as u32,
            )
        } else {
            None
        },
        None => None,
    }
}

/// The raw bytes of the first attribute with the given id, if any.
pub open spec fn spec_attr_bytes(n: Node, id: u16) -> Option<Seq<u8>> {
    match spec_find_attribute(n.attributes@, id) {
        Some(a) => Some(a.value@),
        None => None,
    }
}

impl Node {
    /// Index of the first attribute with the given id, if any.
    fn find_attribute_index(&self, id: u16) -> (r: Option<usize>)
        ensures
            match r {
                Some(i) => i < self.attributes@.len() && spec_find_attribute(self.attributes@, id)
                    == Some(self.attributes@[i as int]),
                None => spec_find_attribute(self.attributes@, id) is None,
            },
    {
        let n = self.attributes.len();
        let mut i: usize = 0;
        assert(self.attributes@.skip(0) =~= self.attributes@);
        while i < n
            invariant
                i <= n,
                n == self.attributes@.len(),
                spec_find_attribute(self.attributes@, id) == spec_find_attribute(
                    self.attributes@.skip(i as int),
                    id,
                ),
            decreases n - i,
        {
            assert(self.attributes@.skip(i as int).first() == self.attributes@[i as int]);
            assert(self.attributes@.skip(i as int).drop_first() =~= self.attributes@.skip(
                i as int + 1,
            ));
            if self.attributes[i].id == id {
                return Some(i);
            }
            i = i + 1;
        }
        assert(self.attributes@.skip(n as int) =~= Seq::<Attribute>::empty());
        None
    }

    /// The first attribute with the given id, decoded as an unsigned byte.
    pub fn attr_u8(&self, id: u16) -> (r: Option<u8>)
        ensures
            r == spec_attr_u8(*self, id),
    {
        match self.find_attribute_index(id) {
            Some(i) => {
                let a = &self.attributes[i];
                if a.value.len() == 1 {
                    Some(a.value[0])
                } else {
                    None
                }
            },
            None => None,
        }
    }

    /// The raw bytes of the first attribute with the given id.
    pub fn attr_value(&self, id: u16) -> (r: Option<&Vec<u8>>)
        ensures
            match r {
                Some(v) => spec_attr_bytes(*self, id) == Some(v@),
                None => spec_attr_bytes(*self, id) is None,
            },
    {
        match self.find_attribute_index(id) {
            Some(i) => Some(&self.attributes[i].value),
            None => None,
        }
    }

    /// The first attribute with the given id, decoded as a little-endian u16.
    pub fn attr_u16(&self, id: u16) -> (r: Option<u16>)
        ensures
            r == spec_attr_u16(*self, id),
    {
        match self.find_attribute_index(id) {
            Some(i) => {
                let a = &self.attributes[i];
                if a.value.len() == 2 {
                    Some(a.value[0] as u16 + 256 * a.value[1] as u16)
                } else {
                    None
                }
            },
            None => None,
        }
    }

    /// The first attribute with the given id, decoded as a little-endian i16.
    pub fn attr_i16(&self, id: u16) -> (r: Option<i16>)
        ensures
            r == spec_attr_i16(*self, id),
    {
        match self.find_attribute_index(id) {
            Some(i) => {
                let a = &self.attributes[i];
                if a.value.len() == 2 {
                    let lo = a.value[0];
                    let hi = a.value[1];
                    let wide: i32 = lo as i32 + 256 * hi as i32 - if hi >= 128 {
                        65536
                    } else {
                        0
                    };
                    Some(wide as i16)
                } else {
                    None
                }
            },
            None => None,
        }
    }

    /// The first attribute with the given id, taken as the bit pattern of a
    /// little-endian 32-bit value.
    pub fn attr_u32_bits(&self, id: u16) -> (r: Option<u32>)
        ensures
            r == spec_attr_u32_bits(*self, id),
    {
        match self.find_attribute_index(id) {
            Some(i) => {
                let a = &self.attributes[i];
                if a.value.len() == 4 {
                    Some(
                        a.value[0] as u32 + 256 * a.value[1] as u32 + 65536 * a.value[2] as u32
                            + 16777216 * a.value[3] as u32,
                    )
                } else {
                    None
                }
            },
            None => None,
        }
    }
}

} // verus!
