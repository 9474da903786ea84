//! The concrete parameter type the integration routes of this crate work
//! with: two fields under declared rules, implementations of every validation
//! capability, a plain-text header codec, and the rejections of its own
//! header-based extraction.

use vstd::prelude::*;
use vstd::string::StrSliceExecFns;
use vstd::string::StringExecFns;
use crate::report::Report;
use crate::response::Response;
use crate::response::BodyKind;
use crate::response::STATUS_FORBIDDEN;
use crate::text::dec_str;
use crate::text::int_str;
use crate::text::is_digit_char;
use crate::text::lemma_dec_str_all_digits;
use crate::text::lemma_parse_int_str;
use crate::text::parse_i32;
use crate::text::parse_i32_spec;
use crate::text::push_i32;
use crate::text::trim;
use crate::text::trim_spec;
use crate::validator::HasValidateArgs;
use crate::validator::Validate;
use crate::validator::ValidateArgs;
use crate::validify::HasModify;
use crate::validify::HasValidify;
use crate::validify::Modify;
use crate::validify::PayloadExtractor;
use crate::validify::ValidifyPayload;
use crate::HasValidate;

verus! {

/// The violations of the parameter rules: `v0` must lie in `[min, max]` and
/// `v1` must be between one and ten characters long.
pub open spec fn param_violations(v0: int, v1: Seq<char>, min: int, max: int) -> Seq<
    (Seq<char>, Seq<char>),
> {
    (if !(min <= v0 <= max) {
        seq![("v0"@, "range"@)]
    } else {
        Seq::<(Seq<char>, Seq<char>)>::empty()
    }) + (if !(1 <= v1.len() <= 10) {
        seq![("v1"@, "length"@)]
    } else {
        Seq::<(Seq<char>, Seq<char>)>::empty()
    })
}

/// A request parameter pair under validation rules: an integer constrained to
/// a range and a string constrained in length.
#[derive(Debug, Clone, PartialEq, Eq)]
pub struct Parameters {
    /// Must lie in the range `[5, 10]`; under argument-aware validation the
    /// range is supplied from outside instead.
    pub v0: i32,
    /// Its length in characters must lie in `[1, 10]`.
    pub v1: String,
}

/// Checks the parameter rules for the range `[min, max]` on `v0`.
fn check_params(v0: i32, v1: &String, min: i32, max: i32) -> (r: Result<(), Report>)
    ensures
        r is Ok <==> param_violations(v0 as int, v1@, min as int, max as int).len() == 0,
        r matches Err(rep) ==> rep@ == param_violations(v0 as int, v1@, min as int, max as int),
{
    let mut rep = Report::new();
    if v0 < min || v0 > max {
        rep.add("v0", "range");
    }
    let len = v1.as_str().unicode_len();
    if len < 1 || len > 10 {
        rep.add("v1", "length");
    }
    proof {
        assert(rep@ =~= param_violations(v0 as int, v1@, min as int, max as int));
    }
    if rep.is_empty() {
        Ok(())
    } else {
        Err(rep)
    }
}

impl Parameters {
    /// A parameter pair from its two fields.
    pub fn new(v0: i32, v1: String) -> (r: Parameters)
        ensures
            r.v0 == v0,
            r.v1 == v1,
    {
        Parameters { v0, v1 }
    }

    /// A parameter pair that satisfies both declared rules.
    pub fn valid() -> (r: Parameters)
        ensures
            r.v0 == 5,
            r.v1@ == "0123456789"@,
            r.violations().len() == 0,
    {
        let r = Parameters { v0: 5, v1: "0123456789".to_owned() };
        proof {
            reveal_strlit("0123456789");
        }
        r
    }

    /// A parameter pair that violates the length rule on `v1`.
    pub fn invalid() -> (r: Parameters)
        ensures
            r.v0 == 6,
            r.v1@ == "01234567890"@,
            r.violations().len() > 0,
    {
        let r = Parameters { v0: 6, v1: "01234567890".to_owned() };
        proof {
            reveal_strlit("01234567890");
        }
        r
    }
}

impl Validate for Parameters {
    /// The rules declared on the type itself: `v0` in `[5, 10]`, the length
    /// of `v1` in `[1, 10]`.
    open spec fn violations(&self) -> Seq<(Seq<char>, Seq<char>)> {
        param_violations(self.v0 as int, self.v1@, 5, 10)
    }

    fn validate(&self) -> (r: Result<(), Report>) {
        check_params(self.v0, &self.v1, 5, 10)
    }
}

/// Externally supplied validation arguments for [`Parameters`]: the range
/// that `v0` must lie in, handed in per route or per process instead of being
/// hard-coded on the type.
#[derive(Debug, Clone, Copy, PartialEq, Eq, Structural)]
pub struct V0Range {
    /// Smallest accepted `v0`.
    pub min: i32,
    /// Largest accepted `v0`.
    pub max: i32,
}

impl ValidateArgs for Parameters {
    type Args = V0Range;

    /// The same rules with the range of `v0` taken from the arguments.
    open spec fn violations_with(&self, args: &V0Range) -> Seq<(Seq<char>, Seq<char>)> {
        param_violations(self.v0 as int, self.v1@, args.min as int, args.max as int)
    }

    fn validate_with_args(&self, args: &V0Range) -> (r: Result<(), Report>) {
        check_params(self.v0, &self.v1, args.min, args.max)
    }
}

impl HasValidate for Parameters {
    type Validate = Parameters;

    open spec fn validate_view(&self) -> Parameters {
        *self
    }

    fn get_validate(&self) -> (r: &Parameters) {
        self
    }
}

impl HasValidateArgs for Parameters {
    type ValidateArgs = Parameters;

    open spec fn validate_args_view(&self) -> Parameters {
        *self
    }

    fn get_validate_args(&self) -> (r: &Parameters) {
        self
    }
}

impl Modify for Parameters {
    /// The declared modification trims leading and trailing spaces off `v1`.
    open spec fn is_modification_of(&self, original: &Parameters) -> bool {
        self.v0 == original.v0 && self.v1@ == trim_spec(original.v1@)
    }

    fn modify(&mut self) {
        let trimmed = trim(self.v1.as_str());
        self.v1 = trimmed;
    }
}

impl HasModify for Parameters {
    type Modify = Parameters;

    open spec fn modify_view(&self) -> Parameters {
        *self
    }

    open spec fn modified_into(&self, after: &Parameters) -> bool {
        after.is_modification_of(self)
    }

    fn apply_modify(&mut self) {
        self.modify();
    }
}

/// The raw payload [`Parameters`] is constructed from: either field may be
/// missing, and a missing field counts as a validation error of its own.
#[derive(Debug, Clone, PartialEq, Eq)]
pub struct ParametersPayload {
    /// The value for `v0`, if the input carried one.
    pub v0: Option<i32>,
    /// The value for `v1`, if the input carried one.
    pub v1: Option<String>,
}

impl PayloadExtractor for ParametersPayload {
    type Payload = ParametersPayload;

    open spec fn payload_view(self) -> ParametersPayload {
        self
    }

    fn get_payload(self) -> (r: ParametersPayload) {
        self
    }
}

impl ValidifyPayload for Parameters {
    type Payload = ParametersPayload;

    /// A missing payload field is reported as a `required` violation.
    open spec fn construction_violations(p: &ParametersPayload) -> Seq<(Seq<char>, Seq<char>)> {
        (if p.v0 is None {
            seq![("v0"@, "required"@)]
        } else {
            Seq::<(Seq<char>, Seq<char>)>::empty()
        }) + (if p.v1 is None {
            seq![("v1"@, "required"@)]
        } else {
            Seq::<(Seq<char>, Seq<char>)>::empty()
        })
    }

    open spec fn constructed(p: &ParametersPayload) -> Parameters {
        Parameters { v0: p.v0.unwrap(), v1: p.v1.unwrap() }
    }

    fn validify_from(p: ParametersPayload) -> (r: Result<Parameters, Report>) {
        match (p.v0, p.v1) {
            (Some(v0), Some(v1)) => {
                let mut value = Parameters { v0, v1 };
                value.modify();
                match value.validate() {
                    Ok(()) => Ok(value),
                    Err(rep) => {
                        proof {
                            assert(value.is_modification_of(&Self::constructed(&p)) && rep@
                                == value.violations() && rep@.len() > 0);
                        }
                        Err(rep)
                    },
                }
            },
            (a, b) => {
                let mut rep = Report::new();
                if a.is_none() {
                    rep.add("v0", "required");
                }
                if b.is_none() {
                    rep.add("v1", "required");
                }
                proof {
                    assert(rep@ =~= Self::construction_violations(&p));
                }
                Err(rep)
            },
        }
    }
}

impl HasValidify for Parameters {
    type Validify = Parameters;

    type PayloadExtractor = ParametersPayload;

    open spec fn spec_from_validify(v: Parameters) -> Parameters {
        v
    }

    fn from_validify(v: Parameters) -> (r: Parameters) {
        v
    }
}

/// Whether position `i` holds the only comma of `s`.
pub open spec fn single_comma_at(s: Seq<char>, i: int) -> bool {
    &&& 0 <= i < s.len()
    &&& s[i] == ','
    &&& forall|j: int| 0 <= j < s.len() && j != i ==> s[j] != ','
}

/// Whether decoding `s` yields exactly the values `v0` and `v1`: one comma
/// splits `s`, the part before it parses as a decimal `i32`, the part after
/// it is taken as it is.
pub open spec fn decodes_to(s: Seq<char>, v0: int, v1: Seq<char>) -> bool {
    exists|i: int|
        single_comma_at(s, i) && parse_i32_spec(s.subrange(0, i)) == Some(v0) && v1 == s.subrange(
            i + 1,
            s.len() as int,
        )
}

/// Whether `s` is a well-formed header encoding of some parameter pair.
pub open spec fn decodable(s: Seq<char>) -> bool {
    exists|i: int| single_comma_at(s, i) && parse_i32_spec(s.subrange(0, i)) is Some
}

/// Error of [`Parameters::decode`]: the header value is not a well-formed
/// encoding.
#[derive(Debug, Clone, Copy, PartialEq, Eq, Structural)]
pub struct InvalidHeader;

impl Parameters {
    /// The name of the header that carries an encoded parameter pair.
    pub fn name() -> (r: &'static str)
        ensures
            r@ == "axum-valid-parameters"@,
    {
        "axum-valid-parameters"
    }

    /// The header encoding of this pair: `v0` in decimal, a comma, then `v1`.
    pub open spec fn encoding(&self) -> Seq<char> {
        int_str(self.v0 as int) + ","@ + self.v1@
    }

    /// Encodes this pair for the header, exactly as [`Parameters::encoding`]
    /// describes.
    pub fn encode(&self) -> (r: String)
        ensures
            r@ == self.encoding(),
    {
        let mut out = String::new();
        push_i32(&mut out, self.v0);
        out.append(",");
        out.append(self.v1.as_str());
        proof {
            assert(out@ =~= self.encoding());
        }
        out
    }

    /// Decodes a header value: succeeds exactly on well-formed encodings, and
    /// then returns the encoded pair.
    #[verifier::loop_isolation(false)]
    pub fn decode(src: &str) -> (r: Result<Parameters, InvalidHeader>)
        ensures
            match r {
                Ok(p) => decodes_to(src@, p.v0 as int, p.v1@),
                Err(_) => !decodable(src@),
            },
    {
        let n = src.unicode_len();
        let mut comma: Option<usize> = None;
        let mut i: usize = 0;
        while i < n
            invariant
                0 <= i <= n,
                n == src@.len(),
                comma matches Some(c) ==> (c < i && src@[c as int] == ','),
                forall|j: int|
                    0 <= j < i && src@[j] == ',' ==> (comma matches Some(c) && j == c),
            decreases n - i,
        {
            let c = src.get_char(i);
            if c == ',' {
                match comma {
                    None => {
                        comma = Some(i);
                    },
                    Some(first) => {
                        proof {
                            assert forall|k: int| !single_comma_at(src@, k) by {
                                if k == first {
                                    assert(src@[i as int] == ',');
                                } else {
                                    assert(src@[first as int] == ',');
                                }
                            }
                        }
                        return Err(InvalidHeader);
                    },
                }
            }
            i += 1;
        }
        match comma {
            None => {
                proof {
                    assert forall|k: int| !single_comma_at(src@, k) by {
                        if 0 <= k < src@.len() {
                            assert(src@[k] != ',');
                        }
                    }
                }
                Err(InvalidHeader)
            },
            Some(ci) => {
                proof {
                    assert forall|k: int| single_comma_at(src@, k) implies k == ci by {
                        if k != ci {
                            assert(src@[ci as int] == ',');
                        }
                    }
                }
                let head = src.substring_char(0, ci);
                match parse_i32(head) {
                    None => {
                        proof {
                            assert(head@ =~= src@.subrange(0, ci as int));
                            assert(!decodable(src@));
                        }
                        Err(InvalidHeader)
                    },
                    Some(v0) => {
                        let tail = src.substring_char(ci + 1, n);
                        let p = Parameters { v0, v1: tail.to_owned() };
                        proof {
                            assert(head@ =~= src@.subrange(0, ci as int));
                            assert(single_comma_at(src@, ci as int));
                            assert(p.v1@ =~= src@.subrange(ci + 1, src@.len() as int));
                        }
                        Ok(p)
                    },
                }
            },
        }
    }
}

/// Law: decoding an encoded pair yields exactly the pair back, for every pair
/// whose `v1` holds no comma — the comma is the separator of the encoding, so
/// a `v1` containing one cannot round-trip.
pub proof fn lemma_codec_round_trip(p: Parameters)
    requires
        forall|i: int| 0 <= i < p.v1@.len() ==> p.v1@[i] != ',',
    ensures
        decodes_to(p.encoding(), p.v0 as int, p.v1@),
{
    reveal_strlit(",");
    let s = p.encoding();
    let num = int_str(p.v0 as int);
    let ci = num.len() as int;
    lemma_parse_int_str(p.v0 as int);
    let m = if p.v0 < 0 {
        (-(p.v0 as int)) as nat
    } else {
        p.v0 as nat
    };
    lemma_dec_str_all_digits(m);
    assert(forall|j: int| 0 <= j < num.len() ==> #[trigger] num[j] != ',') by {
        assert(forall|j: int|
            0 <= j < dec_str(m).len() ==> is_digit_char(#[trigger] dec_str(m)[j]));
    }
    assert(s[ci] == ',');
    assert(single_comma_at(s, ci)) by {
        assert forall|j: int| 0 <= j < s.len() && j != ci implies s[j] != ',' by {
            if j < ci {
                assert(s[j] == num[j]);
            } else {
                assert(s[j] == p.v1@[j - ci - 1]);
            }
        }
    }
    assert(s.subrange(0, ci) =~= num);
    assert(s.subrange(ci + 1, s.len() as int) =~= p.v1@);
}

/// HTTP status used when the header-based extraction of [`Parameters`]
/// fails.
pub const CACHED_REJECTION_STATUS: u16 = STATUS_FORBIDDEN;

/// Rejection of the header-based [`Parameters`] extraction: the header is
/// missing, or its value did not parse as JSON. The parse error is carried as
/// its rendering.
#[derive(Debug)]
pub enum ParametersRejection {
    /// The parameters header is missing from the request.
    Null,
    /// The header value is not a valid JSON string; carries the rendering of
    /// the parse error.
    InvalidJson(String),
}

impl ParametersRejection {
    /// Renders this rejection as a forbidden plain-text response naming what
    /// went wrong.
    pub fn into_response(self) -> (r: Response)
        ensures
            r.status == CACHED_REJECTION_STATUS,
            r.kind == BodyKind::Text,
            self matches ParametersRejection::Null ==> r.body@ == "My-Data header is missing"@,
            self matches ParametersRejection::InvalidJson(e) ==> r.body@
                == "My-Data is not valid json string: "@ + e@,
    {
        match self {
            ParametersRejection::Null => Response::text(
                CACHED_REJECTION_STATUS,
                "My-Data header is missing".to_owned(),
            ),
            ParametersRejection::InvalidJson(e) => {
                let mut body = "My-Data is not valid json string: ".to_owned();
                body.append(e.as_str());
                Response::text(CACHED_REJECTION_STATUS, body)
            },
        }
    }
}

} // verus!
