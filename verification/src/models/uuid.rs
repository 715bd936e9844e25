use vstd::prelude::*;
use vstd::string::{StrSliceExecFns, StringSliceAdditionalSpecFns};

use crate::codec::hex_text;
use crate::text::{concat, concat3, owned, str_eq};
use crate::uuids::{
    ascii_upper, has_version, hyphenated, lemma_hyphenated_ascii, lemma_hyphenated_shape, name_uuid, namespace_bytes, namespace_uuid, parse_uuid, uuid_hyphenated,
    uuid_reading, uuid_simple, uuid_v1, uuid_v4, uuid_v5, uuid_v7, to_uppercase, UuidNamespace,
};

verus! {

/// The text of a UUID in the format `fmt` names: `no-dashes`, `uppercase`,
/// `braces`, or (anything else) the hyphenated form.
pub open spec fn formatted_uuid(fmt: Seq<char>, b: Seq<u8>) -> Seq<char> {
    if fmt == "no-dashes"@ {
        hex_text(b)
    } else if fmt == "uppercase"@ {
        hyphenated(b).map_values(|c: char| ascii_upper(c))
    } else if fmt == "braces"@ {
        "{"@ + hyphenated(b) + "}"@
    } else {
        hyphenated(b)
    }
}

/// `s` is the text, in the format `fmt` names, of some UUID of version
/// `v` (with the RFC 4122 variant).
pub open spec fn is_formatted_uuid(fmt: Seq<char>, s: Seq<char>, v: int) -> bool {
    exists|b: Seq<u8>| has_version(b, v) && #[trigger] formatted_uuid(fmt, b) == s
}

/// The version of the UUIDs the version name `v` selects among the random
/// and time-based ones: `v1`, `v7`, and (any other name) 4.
pub open spec fn selected_version(v: Seq<char>) -> int {
    if v == "v1"@ { 1 } else if v == "v7"@ { 7 } else { 4 }
}

/// The number of UUIDs generated for a requested count: at least 1, at
/// most 100.
pub open spec fn clamped_count(count: i32) -> int {
    if count < 1 { 1 } else if count > 100 { 100 } else { count as int }
}

/// The standard namespace a namespace name chooses: `dns`, `url`, `oid`,
/// `x500`; other names (but `custom`) mean `dns`.
pub open spec fn namespace_of(name: Seq<char>) -> UuidNamespace {
    if name == "url"@ {
        UuidNamespace::Url
    } else if name == "oid"@ {
        UuidNamespace::Oid
    } else if name == "x500"@ {
        UuidNamespace::X500
    } else {
        UuidNamespace::Dns
    }
}

/// The text of a UUID in the format `fmt` names.
pub fn format_uuid(b: [u8; 16], fmt: &str) -> (r: String)
    ensures
        r@ == formatted_uuid(fmt@, b@),
{
    if str_eq(fmt, "no-dashes") {
        uuid_simple(b)
    } else if str_eq(fmt, "uppercase") {
        proof {
            lemma_hyphenated_ascii(b@);
        }
        to_uppercase(uuid_hyphenated(b).as_str())
    } else if str_eq(fmt, "braces") {
        concat3("{", uuid_hyphenated(b).as_str(), "}")
    } else {
        uuid_hyphenated(b)
    }
}

/// State of the UUID generator.
#[derive(Debug, Clone)]
pub struct UuidModel {
    pub version: String,
    pub count: i32,
    pub format: String,
    pub namespace_type: String,
    pub custom_namespace: String,
    pub name: String,
    pub generated_uuids: Vec<String>,
    pub error_message: String,
}

impl UuidModel {
    /// The generator's defaults: one version 4 UUID in the hyphenated form,
    /// with the DNS namespace for version 5.
    pub fn new() -> (r: Self)
        ensures
            r.version@ == "v4"@,
            r.count == 1,
            r.format@ == "standard"@,
            r.namespace_type@ == "dns"@,
            r.custom_namespace@.len() == 0 && r.name@.len() == 0,
            r.generated_uuids@.len() == 0,
            r.error_message@.len() == 0,
    {
        UuidModel {
            version: owned("v4"),
            count: 1,
            format: owned("standard"),
            namespace_type: owned("dns"),
            custom_namespace: String::new(),
            name: String::new(),
            generated_uuids: Vec::new(),
            error_message: String::new(),
        }
    }

    /// The namespace for version 5 UUIDs: a standard one, or the custom
    /// UUID (or the error reading it).
    fn namespace(&self) -> (r: Result<[u8; 16], String>)
        ensures
            self.namespace_type@ == "custom"@ ==> match uuid_reading(self.custom_namespace@) {
                Ok(b) => r matches Ok(x) && x@ == b,
                Err(e) => r matches Err(m) && m@ == "Invalid custom namespace UUID: "@ + e,
            },
            self.namespace_type@ != "custom"@ ==> (r matches Ok(x) && x@ == namespace_bytes(namespace_of(self.namespace_type@))),
    {
        let t = self.namespace_type.as_str();
        if str_eq(t, "custom") {
            match parse_uuid(self.custom_namespace.as_str()) {
                Ok(b) => Ok(b),
                Err(e) => Err(concat("Invalid custom namespace UUID: ", e.as_str())),
            }
        } else if str_eq(t, "url") {
            Ok(namespace_uuid(UuidNamespace::Url))
        } else if str_eq(t, "oid") {
            Ok(namespace_uuid(UuidNamespace::Oid))
        } else if str_eq(t, "x500") {
            Ok(namespace_uuid(UuidNamespace::X500))
        } else {
            Ok(namespace_uuid(UuidNamespace::Dns))
        }
    }

    /// Generate UUIDs of the selected version, as many as the count asks
    /// (from 1 to 100), in the selected format.  Version 5 UUIDs are all the
    /// same: the one of the name in the namespace; it needs a name, and a
    /// custom namespace must read as a UUID.  On such an error the list is
    /// left as it was.
    pub fn generate(&mut self)
        ensures
            ({
                let n = clamped_count(old(self).count);
                let v = old(self).version@;
                let f = old(self).format@;
                let m = UuidModel { error_message: final(self).error_message, ..*old(self) };
                if v == "v5"@ {
                    if old(self).name@.len() == 0 {
                        final(self).error_message@ == "Name is required for UUID v5"@ && *final(self) == m
                    } else if old(self).namespace_type@ == "custom"@ && uuid_reading(old(self).custom_namespace@) is Err {
                        &&& final(self).error_message@ == "Invalid custom namespace UUID: "@ + uuid_reading(old(self).custom_namespace@)->Err_0
                        &&& *final(self) == m
                    } else {
                        let ns = if old(self).namespace_type@ == "custom"@ {
                            uuid_reading(old(self).custom_namespace@)->Ok_0
                        } else {
                            namespace_bytes(namespace_of(old(self).namespace_type@))
                        };
                        &&& final(self).error_message@.len() == 0
                        &&& final(self).generated_uuids@.len() == n
                        &&& forall|i: int| 0 <= i < n ==> (#[trigger] final(self).generated_uuids@[i])@
                            == formatted_uuid(f, name_uuid(ns, vstd::utf8::encode_utf8(old(self).name@)))
                        &&& *final(self) == (UuidModel { generated_uuids: final(self).generated_uuids, ..m })
                    }
                } else {
                    &&& final(self).error_message@.len() == 0
                    &&& final(self).generated_uuids@.len() == n
                    &&& forall|i: int| 0 <= i < n ==> is_formatted_uuid(f, (#[trigger] final(self).generated_uuids@[i])@, selected_version(v))
                    &&& *final(self) == (UuidModel { generated_uuids: final(self).generated_uuids, ..m })
                }
            }),
    {
        self.error_message = String::new();
        let n: i32 = if self.count < 1 { 1 } else if self.count > 100 { 100 } else { self.count };
        let is_v5 = str_eq(self.version.as_str(), "v5");
        let mut ns: [u8; 16] = [0u8; 16];
        if is_v5 {
            if self.name.as_str().unicode_len() == 0 {
                self.error_message = owned("Name is required for UUID v5");
                return;
            }
            match self.namespace() {
                Ok(b) => ns = b,
                Err(e) => {
                    self.error_message = e;
                    return;
                },
            }
        }
        let name_bytes = self.name.as_str().as_bytes();
        let mut out: Vec<String> = Vec::new();
        let mut i: i32 = 0;
        while i < n
            invariant
                0 <= i <= n,
                n == clamped_count(old(self).count),
                out@.len() == i,
                is_v5 == (old(self).version@ == "v5"@),
                self.format == old(self).format,
                self.version == old(self).version,
                name_bytes@ == vstd::utf8::encode_utf8(old(self).name@),
                *self == (UuidModel { error_message: self.error_message, ..*old(self) }),
                self.error_message@.len() == 0,
                is_v5 ==> ns@ == (if old(self).namespace_type@ == "custom"@ {
                    uuid_reading(old(self).custom_namespace@)->Ok_0
                } else {
                    namespace_bytes(namespace_of(old(self).namespace_type@))
                }),
                is_v5 ==> forall|k: int| 0 <= k < i ==> (#[trigger] out@[k])@
                    == formatted_uuid(old(self).format@, name_uuid(ns@, name_bytes@)),
                !is_v5 ==> forall|k: int| 0 <= k < i ==> is_formatted_uuid(old(self).format@, (#[trigger] out@[k])@, selected_version(old(self).version@)),
            decreases n - i,
        {
            let v = self.version.as_str();
            let b = if is_v5 {
                uuid_v5(ns, name_bytes)
            } else if str_eq(v, "v1") {
                uuid_v1()
            } else if str_eq(v, "v7") {
                uuid_v7()
            } else {
                uuid_v4()
            };
            let text = format_uuid(b, self.format.as_str());
            proof {
                if !is_v5 {
                    assert(has_version(b@, selected_version(old(self).version@)));
                    assert(formatted_uuid(old(self).format@, b@) == text@);
                    assert(is_formatted_uuid(old(self).format@, text@, selected_version(old(self).version@)));
                }
            }
            out.push(text);
            i = i + 1;
        }
        self.generated_uuids = out;
    }

    /// Empty the generated list and the error.
    pub fn clear(&mut self)
        ensures
            final(self).generated_uuids@.len() == 0,
            final(self).error_message@.len() == 0,
            *final(self) == (UuidModel {
                generated_uuids: final(self).generated_uuids,
                error_message: final(self).error_message,
                ..*old(self)
            }),
    {
        self.generated_uuids = Vec::new();
        self.error_message = String::new();
    }
}

/// The RFC 4122 standard namespace UUID whose fourth byte is `b3`: DNS
/// (0x10), URL (0x11), OID (0x12) or X.500 (0x14); the other bytes are the
/// same in all four (6ba7b8xx-9dad-11d1-80b4-00c04fd430c8).
pub open spec fn rfc_namespace(b3: u8) -> Seq<u8> {
    seq![0x6bu8, 0xa7u8, 0xb8u8, b3] + seq![0x9du8, 0xadu8, 0x11u8, 0xd1u8, 0x80u8, 0xb4u8, 0x00u8, 0xc0u8, 0x4fu8, 0xd4u8, 0x30u8, 0xc8u8]
}

/// A standard namespace name selects the RFC 4122 namespace of that name:
/// `url` the URL namespace (6ba7b811-...), `oid` the OID one (6ba7b812-...),
/// `x500` the X.500 one (6ba7b814-...), and `dns` or any other name the DNS
/// one (6ba7b810-...); so the four standard names select four different
/// namespaces.
pub proof fn law_namespace_names_select_their_namespace(name: Seq<char>, other: Seq<char>)
    ensures
        namespace_bytes(namespace_of(name)) == rfc_namespace(
            if name == "url"@ { 0x11u8 } else if name == "oid"@ { 0x12u8 } else if name == "x500"@ { 0x14u8 } else { 0x10u8 },
        ),
        ({
            let standard = |n: Seq<char>| n == "dns"@ || n == "url"@ || n == "oid"@ || n == "x500"@;
            standard(name) && standard(other) && name != other ==> namespace_bytes(namespace_of(name)) != namespace_bytes(namespace_of(other))
        }),
{
    reveal_strlit("dns");
    reveal_strlit("url");
    reveal_strlit("oid");
    reveal_strlit("x500");
    assert("dns"@ != "url"@ && "dns"@ != "oid"@ && "url"@ != "oid"@) by {
        assert("dns"@[0] != "url"@[0] && "dns"@[0] != "oid"@[0] && "url"@[0] != "oid"@[0]);
    }
    assert("x500"@.len() != "dns"@.len());
    let b = namespace_bytes(namespace_of(name));
    assert(b =~= rfc_namespace(
        if name == "url"@ { 0x11u8 } else if name == "oid"@ { 0x12u8 } else if name == "x500"@ { 0x14u8 } else { 0x10u8 },
    ));
    let c = namespace_bytes(namespace_of(other));
    if namespace_of(name) != namespace_of(other) {
        assert(b[3] != c[3]);
    }
}

/// Each format writes a UUID its own way: `no-dashes` as its 32 lowercase
/// hexadecimal digits with no `-`; `braces` as 38 characters, the
/// hyphenated form between `{` and `}`; `uppercase` as 36 characters with
/// `-` at positions 8, 13, 18 and 23 and no small letter; and any other
/// format as 36 characters with `-` at those positions and lowercase
/// hexadecimal digits elsewhere.
pub proof fn law_uuid_formats(fmt: Seq<char>, b: Seq<u8>)
    requires
        b.len() == 16,
    ensures
        fmt == "no-dashes"@ ==> {
            &&& formatted_uuid(fmt, b).len() == 32
            &&& forall|i: int| 0 <= i < 32 ==> ('0' <= #[trigger] formatted_uuid(fmt, b)[i] <= '9' || 'a' <= formatted_uuid(fmt, b)[i] <= 'f')
        },
        fmt == "braces"@ ==> {
            &&& formatted_uuid(fmt, b).len() == 38
            &&& formatted_uuid(fmt, b)[0] == '{' && formatted_uuid(fmt, b)[37] == '}'
            &&& formatted_uuid(fmt, b).subrange(1, 37) == formatted_uuid("standard"@, b)
        },
        fmt == "uppercase"@ ==> {
            &&& formatted_uuid(fmt, b).len() == 36
            &&& forall|i: int| 0 <= i < 36 ==> (#[trigger] formatted_uuid(fmt, b)[i] == '-' <==> (i == 8 || i == 13 || i == 18 || i == 23))
            &&& forall|i: int| 0 <= i < 36 ==> !('a' <= #[trigger] formatted_uuid(fmt, b)[i] <= 'z')
        },
        fmt != "no-dashes"@ && fmt != "braces"@ && fmt != "uppercase"@ ==> {
            &&& formatted_uuid(fmt, b).len() == 36
            &&& forall|i: int| 0 <= i < 36 ==> (#[trigger] formatted_uuid(fmt, b)[i] == '-' <==> (i == 8 || i == 13 || i == 18 || i == 23))
            &&& forall|i: int| 0 <= i < 36 && i != 8 && i != 13 && i != 18 && i != 23
                ==> ('0' <= #[trigger] formatted_uuid(fmt, b)[i] <= '9' || 'a' <= formatted_uuid(fmt, b)[i] <= 'f')
        },
{
    reveal_strlit("no-dashes");
    reveal_strlit("braces");
    reveal_strlit("uppercase");
    reveal_strlit("standard");
    reveal_strlit("{");
    reveal_strlit("}");
    crate::codec::lemma_hex_text_digits(b);
    lemma_hyphenated_shape(b);
    let h = hyphenated(b);
    assert("standard"@[0] != "no-dashes"@[0] && "standard"@[0] != "braces"@[0] && "standard"@[0] != "uppercase"@[0]);
    assert(formatted_uuid("standard"@, b) == h);
    if fmt == "braces"@ {
        assert("braces"@[0] != "no-dashes"@[0] && "braces"@[0] != "uppercase"@[0]);
        let t = formatted_uuid(fmt, b);
        assert(t == "{"@ + h + "}"@);
        assert(t.subrange(1, 37) =~= h);
    }
    if fmt == "uppercase"@ {
        assert("uppercase"@[0] != "no-dashes"@[0]);
        let t = formatted_uuid(fmt, b);
        assert(t == h.map_values(|c: char| ascii_upper(c)));
        assert forall|i: int| 0 <= i < 36 implies (#[trigger] t[i] == '-' <==> (i == 8 || i == 13 || i == 18 || i == 23))
            && !('a' <= t[i] <= 'z') by {
            assert(t[i] == ascii_upper(h[i]));
        }
    }
}

} // verus!
