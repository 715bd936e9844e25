use vstd::prelude::*;
use vstd::string::StrSliceExecFns;
use vstd::utf8::encode_utf8;

use crate::codec::{hex_encode, hex_text};
use crate::digests::{
    file_name_of, hmac_sha256, hmac_sha256_of, hmac_sha512, hmac_sha512_of, md5_digest, md5_of,
    path_file_name, sha1_digest, sha1_of, sha256_digest, sha256_of, sha512_digest, sha512_of,
};
use crate::text::{concat, concat3, lowercase, owned, str_eq, to_lowercase};

verus! {

/// `s` with every space removed.
pub open spec fn without_spaces(s: Seq<char>) -> Seq<char>
    decreases s.len(),
{
    if s.len() == 0 {
        Seq::empty()
    } else {
        without_spaces(s.drop_last()) + if s.last() == ' ' { Seq::empty() } else { seq![s.last()] }
    }
}

/// `s` with every space removed.
pub fn remove_spaces(s: &str) -> (r: String)
    ensures
        r@ == without_spaces(s@),
{
    let n = s.unicode_len();
    let mut out = String::new();
    let mut i: usize = 0;
    while i < n
        invariant
            n == s@.len(),
            i <= n,
            out@ == without_spaces(s@.subrange(0, i as int)),
        decreases n - i,
    {
        let c = s.get_char(i);
        assert(s@.subrange(0, i + 1).drop_last() =~= s@.subrange(0, i as int));
        if c != ' ' {
            let one = s.substring_char(i, i + 1);
            assert(one@ =~= seq![c]);
            out = concat(out.as_str(), one);
        } else {
            assert(out@ =~= out@ + Seq::<char>::empty());
        }
        i = i + 1;
    }
    assert(s@.subrange(0, n as int) =~= s@);
    out
}

/// What comparing against the hashes reports: `match:` and the name of the
/// first hash (MD5, SHA-1, SHA-256, SHA-512) that equals the wanted value
/// (both lowercased, spaces removed from the wanted value), else `no-match`;
/// nothing when the wanted value is empty.
pub open spec fn compare_report(wanted: Seq<char>, md5: Seq<char>, sha1: Seq<char>, sha256: Seq<char>, sha512: Seq<char>) -> Seq<char> {
    let w = without_spaces(lowercase(wanted));
    if w.len() == 0 {
        Seq::empty()
    } else if lowercase(md5) == w {
        "match:MD5"@
    } else if lowercase(sha1) == w {
        "match:SHA-1"@
    } else if lowercase(sha256) == w {
        "match:SHA-256"@
    } else if lowercase(sha512) == w {
        "match:SHA-512"@
    } else {
        "no-match"@
    }
}

/// The checksum file content: the SHA-256 and the file name (`input.txt`
/// for typed text), as one `sha256sum` line; empty without a SHA-256.
pub open spec fn checksums_text(sha256: Seq<char>, file_name: Seq<char>) -> Seq<char> {
    if sha256.len() == 0 {
        Seq::empty()
    } else {
        sha256 + "  "@ + (if file_name.len() == 0 { "input.txt"@ } else { file_name }) + "\n"@
    }
}

/// State of the hash calculator.
#[derive(Debug, Clone)]
pub struct HashModel {
    pub input: String,
    pub input_type: String,
    pub file_path: String,
    pub file_name: String,
    pub file_size: i64,
    pub hash_md5: String,
    pub hash_sha1: String,
    pub hash_sha256: String,
    pub hash_sha512: String,
    pub hmac_enabled: bool,
    pub hmac_key: String,
    pub hmac_algorithm: String,
    pub hmac_result: String,
    pub compare_hash: String,
    pub compare_result: String,
    pub error_message: String,
}

/// `new` shows the four hashes of `b`; the rest is `old`.
pub open spec fn hashes_of(old: HashModel, new: HashModel, b: Seq<u8>) -> bool {
    &&& new.hash_md5@ == hex_text(md5_of(b))
    &&& new.hash_sha1@ == hex_text(sha1_of(b))
    &&& new.hash_sha256@ == hex_text(sha256_of(b))
    &&& new.hash_sha512@ == hex_text(sha512_of(b))
    &&& new == (HashModel {
        hash_md5: new.hash_md5,
        hash_sha1: new.hash_sha1,
        hash_sha256: new.hash_sha256,
        hash_sha512: new.hash_sha512,
        ..old
    })
}

impl HashModel {
    /// The calculator's defaults: text input, HMAC with SHA-256, all else empty.
    pub fn new() -> (r: Self)
        ensures
            r.input_type@ == "text"@,
            r.hmac_algorithm@ == "sha256"@,
            !r.hmac_enabled && r.file_size == 0,
            r.input@.len() == 0 && r.hash_md5@.len() == 0 && r.hash_sha256@.len() == 0,
            r.error_message@.len() == 0,
    {
        HashModel {
            input: String::new(),
            input_type: owned("text"),
            file_path: String::new(),
            file_name: String::new(),
            file_size: 0,
            hash_md5: String::new(),
            hash_sha1: String::new(),
            hash_sha256: String::new(),
            hash_sha512: String::new(),
            hmac_enabled: false,
            hmac_key: String::new(),
            hmac_algorithm: owned("sha256"),
            hmac_result: String::new(),
            compare_hash: String::new(),
            compare_result: String::new(),
            error_message: String::new(),
        }
    }

    /// Show the four hashes of `bytes`.
    fn compute_all_hashes(&mut self, bytes: &[u8])
        ensures
            hashes_of(*old(self), *final(self), bytes@),
    {
        self.hash_md5 = hex_encode(md5_digest(bytes).as_slice());
        self.hash_sha1 = hex_encode(sha1_digest(bytes).as_slice());
        self.hash_sha256 = hex_encode(sha256_digest(bytes).as_slice());
        self.hash_sha512 = hex_encode(sha512_digest(bytes).as_slice());
    }

    /// Empty the four hashes.
    fn clear_hashes(&mut self)
        ensures
            final(self).hash_md5@.len() == 0 && final(self).hash_sha1@.len() == 0,
            final(self).hash_sha256@.len() == 0 && final(self).hash_sha512@.len() == 0,
            *final(self) == (HashModel {
                hash_md5: final(self).hash_md5,
                hash_sha1: final(self).hash_sha1,
                hash_sha256: final(self).hash_sha256,
                hash_sha512: final(self).hash_sha512,
                ..*old(self)
            }),
    {
        self.hash_md5 = String::new();
        self.hash_sha1 = String::new();
        self.hash_sha256 = String::new();
        self.hash_sha512 = String::new();
    }

    /// Hash the text input (as UTF-8); an empty input clears the hashes.
    pub fn hash_text(&mut self)
        ensures
            final(self).error_message@.len() == 0,
            ({
                let m = HashModel { error_message: final(self).error_message, ..*old(self) };
                if old(self).input@.len() == 0 {
                    &&& final(self).hash_md5@.len() == 0 && final(self).hash_sha1@.len() == 0
                    &&& final(self).hash_sha256@.len() == 0 && final(self).hash_sha512@.len() == 0
                    &&& *final(self) == (HashModel {
                        hash_md5: final(self).hash_md5,
                        hash_sha1: final(self).hash_sha1,
                        hash_sha256: final(self).hash_sha256,
                        hash_sha512: final(self).hash_sha512,
                        ..m
                    })
                } else {
                    hashes_of(m, *final(self), encode_utf8(old(self).input@))
                }
            }),
    {
        self.error_message = String::new();
        if self.input.as_str().unicode_len() == 0 {
            self.clear_hashes();
            return;
        }
        let input = owned(self.input.as_str());
        self.compute_all_hashes(input.as_str().as_bytes());
    }

    /// Hash the file at `path`, whose content (or the error reading it) is
    /// `read`.
    pub fn hash_file(&mut self, path: &str, read: Result<Vec<u8>, String>)
        requires
            read matches Ok(b) ==> b@.len() <= i64::MAX,
        ensures
            match read {
                Ok(b) => {
                    &&& final(self).error_message@.len() == 0
                    &&& final(self).file_path@ == path@
                    &&& final(self).file_name@ == file_name_of(path@)
                    &&& final(self).file_size == b@.len()
                    &&& hashes_of(HashModel {
                        error_message: final(self).error_message,
                        file_path: final(self).file_path,
                        file_name: final(self).file_name,
                        file_size: final(self).file_size,
                        ..*old(self)
                    }, *final(self), b@)
                },
                Err(e) => {
                    &&& final(self).error_message@ == "Failed to read file: "@ + e@
                    &&& *final(self) == (HashModel { error_message: final(self).error_message, ..*old(self) })
                },
            },
    {
        self.error_message = String::new();
        match read {
            Ok(bytes) => {
                self.file_path = owned(path);
                self.file_name = path_file_name(path);
                self.file_size = bytes.len() as i64;
                self.compute_all_hashes(bytes.as_slice());
            },
            Err(e) => {
                self.error_message = concat("Failed to read file: ", e.as_str());
            },
        }
    }

    /// The HMAC of the input under the key, with SHA-256 or SHA-512; empty
    /// without input or key; another algorithm leaves the result as it was.
    pub fn compute_hmac(&mut self)
        ensures
            final(self).error_message@.len() == 0,
            ({
                let m = HashModel { error_message: final(self).error_message, ..*old(self) };
                let msg = encode_utf8(old(self).input@);
                let key = encode_utf8(old(self).hmac_key@);
                if old(self).input@.len() == 0 || old(self).hmac_key@.len() == 0 {
                    final(self).hmac_result@.len() == 0 && *final(self) == (HashModel { hmac_result: final(self).hmac_result, ..m })
                } else if old(self).hmac_algorithm@ == "sha256"@ {
                    final(self).hmac_result@ == hex_text(hmac_sha256_of(key, msg))
                        && *final(self) == (HashModel { hmac_result: final(self).hmac_result, ..m })
                } else if old(self).hmac_algorithm@ == "sha512"@ {
                    final(self).hmac_result@ == hex_text(hmac_sha512_of(key, msg))
                        && *final(self) == (HashModel { hmac_result: final(self).hmac_result, ..m })
                } else {
                    *final(self) == m
                }
            }),
    {
        self.error_message = String::new();
        if self.input.as_str().unicode_len() == 0 || self.hmac_key.as_str().unicode_len() == 0 {
            self.hmac_result = String::new();
            return;
        }
        let alg = self.hmac_algorithm.as_str();
        let result = if str_eq(alg, "sha256") {
            hex_encode(hmac_sha256(self.hmac_key.as_str().as_bytes(), self.input.as_str().as_bytes()).as_slice())
        } else if str_eq(alg, "sha512") {
            hex_encode(hmac_sha512(self.hmac_key.as_str().as_bytes(), self.input.as_str().as_bytes()).as_slice())
        } else {
            return;
        };
        self.hmac_result = result;
    }

    /// Compare the wanted hash value with the shown hashes.
    pub fn compare(&mut self)
        ensures
            final(self).compare_result@ == compare_report(
                old(self).compare_hash@,
                old(self).hash_md5@,
                old(self).hash_sha1@,
                old(self).hash_sha256@,
                old(self).hash_sha512@,
            ),
            *final(self) == (HashModel { compare_result: final(self).compare_result, ..*old(self) }),
    {
        let lower = to_lowercase(self.compare_hash.as_str());
        let wanted = remove_spaces(lower.as_str());
        if wanted.as_str().unicode_len() == 0 {
            self.compare_result = String::new();
            return;
        }
        let w = wanted.as_str();
        let r = if str_eq(to_lowercase(self.hash_md5.as_str()).as_str(), w) {
            owned("match:MD5")
        } else if str_eq(to_lowercase(self.hash_sha1.as_str()).as_str(), w) {
            owned("match:SHA-1")
        } else if str_eq(to_lowercase(self.hash_sha256.as_str()).as_str(), w) {
            owned("match:SHA-256")
        } else if str_eq(to_lowercase(self.hash_sha512.as_str()).as_str(), w) {
            owned("match:SHA-512")
        } else {
            owned("no-match")
        };
        self.compare_result = r;
    }

    /// The checksum file content for the shown SHA-256.
    pub fn export_checksums(&self) -> (r: String)
        ensures
            r@ == checksums_text(self.hash_sha256@, self.file_name@),
    {
        if self.hash_sha256.as_str().unicode_len() == 0 {
            return String::new();
        }
        let name = if self.file_name.as_str().unicode_len() == 0 { "input.txt" } else { self.file_name.as_str() };
        let line = concat3(self.hash_sha256.as_str(), "  ", name);
        concat(line.as_str(), "\n")
    }

    /// Empty the inputs, the file, the hashes and the results.
    pub fn clear(&mut self)
        ensures
            final(self).input@.len() == 0 && final(self).file_path@.len() == 0,
            final(self).file_name@.len() == 0 && final(self).file_size == 0,
            final(self).hash_md5@.len() == 0 && final(self).hash_sha1@.len() == 0,
            final(self).hash_sha256@.len() == 0 && final(self).hash_sha512@.len() == 0,
            final(self).hmac_result@.len() == 0 && final(self).compare_hash@.len() == 0,
            final(self).compare_result@.len() == 0 && final(self).error_message@.len() == 0,
            final(self).input_type == old(self).input_type,
            final(self).hmac_enabled == old(self).hmac_enabled,
            final(self).hmac_key == old(self).hmac_key,
            final(self).hmac_algorithm == old(self).hmac_algorithm,
    {
        self.input = String::new();
        self.file_path = String::new();
        self.file_name = String::new();
        self.file_size = 0;
        self.clear_hashes();
        self.hmac_result = String::new();
        self.compare_hash = String::new();
        self.compare_result = String::new();
        self.error_message = String::new();
    }
}

/// Comparing reports a match exactly when the wanted value (lowercased,
/// spaces removed) equals one of the four shown hashes (lowercased): an
/// empty wanted value reports nothing; a wanted value equal to none of them
/// reports `no-match`, and one equal to any of them never does; and the
/// hash named is the first of MD5, SHA-1, SHA-256 and SHA-512 that equals
/// it, so a SHA-256 that alone matches is reported as `match:SHA-256`.
pub proof fn law_compare_names_the_matching_hash(before: HashModel, after: HashModel)
    requires
        after.compare_result@ == compare_report(
            before.compare_hash@,
            before.hash_md5@,
            before.hash_sha1@,
            before.hash_sha256@,
            before.hash_sha512@,
        ),
    ensures
        ({
            let w = without_spaces(lowercase(before.compare_hash@));
            let r = after.compare_result@;
            let md5 = lowercase(before.hash_md5@) == w;
            let sha1 = lowercase(before.hash_sha1@) == w;
            let sha256 = lowercase(before.hash_sha256@) == w;
            let sha512 = lowercase(before.hash_sha512@) == w;
            &&& w.len() == 0 ==> r.len() == 0
            &&& w.len() > 0 ==> (r == "no-match"@ <==> !(md5 || sha1 || sha256 || sha512))
            &&& w.len() > 0 && md5 ==> r == "match:MD5"@
            &&& w.len() > 0 && !md5 && sha1 ==> r == "match:SHA-1"@
            &&& w.len() > 0 && !md5 && !sha1 && sha256 ==> r == "match:SHA-256"@
            &&& w.len() > 0 && !md5 && !sha1 && !sha256 && sha512 ==> r == "match:SHA-512"@
        }),
{
    reveal_strlit("no-match");
    reveal_strlit("match:MD5");
    reveal_strlit("match:SHA-1");
    reveal_strlit("match:SHA-256");
    reveal_strlit("match:SHA-512");
    assert("no-match"@[0] != "match:MD5"@[0]);
    assert("no-match"@[0] != "match:SHA-1"@[0]);
    assert("no-match"@[0] != "match:SHA-256"@[0]);
    assert("no-match"@[0] != "match:SHA-512"@[0]);
}

} // verus!
