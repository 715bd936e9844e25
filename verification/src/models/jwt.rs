use vstd::prelude::*;
use vstd::string::StrSliceExecFns;
use vstd::utf8::encode_utf8;

use crate::digests::{encode_jwt, jwt_signing, JwtAlgorithm};
use crate::json::values::{json_node, read_json, JsonKind};
use crate::text::{concat, owned, str_eq, trim, trim_spec};

verus! {

/// The algorithm an algorithm name chooses; unknown names mean HS256.
pub open spec fn algorithm_of(name: Seq<char>) -> JwtAlgorithm {
    if name == "HS384"@ {
        JwtAlgorithm::HS384
    } else if name == "HS512"@ {
        JwtAlgorithm::HS512
    } else {
        JwtAlgorithm::HS256
    }
}

/// What generating a token from the fields gives: the token, or the error
/// shown.
pub open spec fn token_outcome(payload: Seq<char>, secret: Seq<char>, algorithm: Seq<char>) -> Result<Seq<char>, Seq<char>> {
    if trim_spec(payload).len() == 0 {
        Err("Payload is required"@)
    } else if secret.len() == 0 {
        Err("Secret key is required"@)
    } else {
        match json_node(payload) {
            Err(e) => Err("Invalid JSON: "@ + e),
            Ok(n) => if n.0 != JsonKind::Object {
                Err("Payload must be a JSON object"@)
            } else {
                match jwt_signing(algorithm_of(algorithm), payload, encode_utf8(secret)) {
                    Ok(t) => Ok(t),
                    Err(e) => Err("Failed to generate token: "@ + e),
                }
            },
        }
    }
}

/// State of the JWT generator: its input fields, the token last generated
/// and the error of the last attempt.
#[derive(Debug, Clone)]
pub struct JwtModel {
    pub payload: String,
    pub secret: String,
    pub algorithm: String,
    pub generated_token: String,
    pub error_message: String,
}

impl JwtModel {
    /// A model with every field empty.
    pub fn new() -> (r: Self)
        ensures
            r.payload@.len() == 0,
            r.secret@.len() == 0,
            r.algorithm@.len() == 0,
            r.generated_token@.len() == 0,
            r.error_message@.len() == 0,
    {
        JwtModel {
            payload: String::new(),
            secret: String::new(),
            algorithm: String::new(),
            generated_token: String::new(),
            error_message: String::new(),
        }
    }

    /// Sign the payload (a JSON object) with the secret using the selected
    /// HMAC algorithm; the token or the error is shown.
    pub fn generate_token(&mut self)
        ensures
            match token_outcome(old(self).payload@, old(self).secret@, old(self).algorithm@) {
                Ok(t) => final(self).generated_token@ == t && final(self).error_message@.len() == 0,
                Err(m) => final(self).generated_token@.len() == 0 && final(self).error_message@ == m,
            },
            final(self).payload == old(self).payload,
            final(self).secret == old(self).secret,
            final(self).algorithm == old(self).algorithm,
    {
        self.error_message = String::new();
        self.generated_token = String::new();
        if trim(self.payload.as_str()).unicode_len() == 0 {
            self.error_message = owned("Payload is required");
            return;
        }
        if self.secret.as_str().unicode_len() == 0 {
            self.error_message = owned("Secret key is required");
            return;
        }
        match read_json(self.payload.as_str()) {
            Err(e) => {
                self.error_message = concat("Invalid JSON: ", e.as_str());
                return;
            },
            Ok(n) => {
                if n.kind != JsonKind::Object {
                    self.error_message = owned("Payload must be a JSON object");
                    return;
                }
            },
        }
        let name = self.algorithm.as_str();
        let alg = if str_eq(name, "HS384") {
            JwtAlgorithm::HS384
        } else if str_eq(name, "HS512") {
            JwtAlgorithm::HS512
        } else {
            JwtAlgorithm::HS256
        };
        proof {
            reveal_strlit("HS256");
        }
        match encode_jwt(alg, self.payload.as_str(), self.secret.as_str().as_bytes()) {
            Ok(t) => self.generated_token = t,
            Err(e) => self.error_message = concat("Failed to generate token: ", e.as_str()),
        }
    }

    /// Hand the generated token to the clipboard.  Returns the length of the
    /// token that is copied, or `None` when there is no token to copy.
    pub fn copy_to_clipboard(&self) -> (r: Option<usize>)
        ensures
            self.generated_token@.len() == 0 ==> r is None,
            self.generated_token@.len() > 0 ==> r == Some(self.generated_token@.len() as usize),
    {
        let token = self.generated_token.as_str();
        let n = token.unicode_len();
        if n == 0 {
            None
        } else {
            Some(n)
        }
    }
}

/// The standard name of a signing algorithm.
pub open spec fn algorithm_name(a: JwtAlgorithm) -> Seq<char> {
    match a {
        JwtAlgorithm::HS256 => "HS256"@,
        JwtAlgorithm::HS384 => "HS384"@,
        JwtAlgorithm::HS512 => "HS512"@,
    }
}

/// Choosing an algorithm by its standard name gives that algorithm, for
/// every algorithm, and a name that is none of them gives HS256.
pub proof fn law_algorithm_names_choose_their_algorithm(a: JwtAlgorithm, name: Seq<char>)
    ensures
        algorithm_of(algorithm_name(a)) == a,
        name != "HS256"@ && name != "HS384"@ && name != "HS512"@ ==> algorithm_of(name) == JwtAlgorithm::HS256,
{
    reveal_strlit("HS256");
    reveal_strlit("HS384");
    reveal_strlit("HS512");
    assert("HS256"@[2] != "HS384"@[2] && "HS256"@[2] != "HS512"@[2] && "HS384"@[2] != "HS512"@[2]);
}

} // verus!
