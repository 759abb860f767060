use vstd::prelude::*;

verus! {

/// Opaque handle of an open result cursor: a 128-bit random token.
#[derive(Debug, Clone, Copy, PartialEq, Eq, Structural, Hash)]
pub struct StreamId(pub u128);

/// A version-4 (random) uuid: version nibble 4 and variant bits `10`.
pub open spec fn is_v4_token(token: u128) -> bool {
    &&& (token >> 76u128) & 0xfu128 == 4
    &&& (token >> 62u128) & 0x3u128 == 2
}

/// Relies on uuid::Uuid::new_v4: 122 random bits, with the version and
/// variant bits set for a version-4 uuid.
#[verifier::external_body]
fn random_token() -> (r: u128)
    ensures
        is_v4_token(r),
{
    uuid::Uuid::new_v4().as_u128()
}

/// The lowercase hexadecimal digit of a value below 16.
pub open spec fn hex_digit(n: u128) -> char {
    seq!['0', '1', '2', '3', '4', '5', '6', '7', '8', '9', 'a', 'b', 'c', 'd', 'e', 'f'][n as int]
}

/// Nibble `j` of a token, counted from the most significant (0 to 31).
pub open spec fn nibble(token: u128, j: int) -> u128 {
    (token >> ((4 * (31 - j)) as u128)) & 0xfu128
}

/// Whether text position `i` of a uuid holds a hyphen.
pub open spec fn is_hyphen_at(i: int) -> bool {
    i == 8 || i == 13 || i == 18 || i == 23
}

/// The nibble shown at text position `i`: the position less the hyphens
/// before it.
pub open spec fn nibble_at(i: int) -> int {
    if i < 8 {
        i
    } else if i < 13 {
        i - 1
    } else if i < 18 {
        i - 2
    } else if i < 23 {
        i - 3
    } else {
        i - 4
    }
}

/// The canonical text of a token: its 32 nibbles in lowercase hexadecimal,
/// most significant first, in groups of 8, 4, 4, 4 and 12 joined by hyphens.
pub open spec fn uuid_text(token: u128) -> Seq<char> {
    Seq::new(
        36,
        |i: int|
            if is_hyphen_at(i) {
                '-'
            } else {
                hex_digit(nibble(token, nibble_at(i)))
            },
    )
}

/// Relies on uuid::Uuid::hyphenated: the token's nibbles in lowercase
/// hexadecimal, grouped 8-4-4-4-12 by hyphens.
#[verifier::external_body]
fn token_text(token: u128) -> (r: String)
    ensures
        r@ == uuid_text(token),
{
    uuid::Uuid::from_u128(token).hyphenated().to_string()
}

impl StreamId {
    /// Draws a random identifier: a version-4 uuid. Freshness among the
    /// identifiers handed out is the registry's concern.
    pub fn new() -> (r: StreamId)
        ensures
            is_v4_token(r.0),
    {
        StreamId(random_token())
    }

    /// The identifier in its canonical string form.
    pub fn to_string(&self) -> (r: String)
        ensures
            r@ == uuid_text(self.0),
            r@.len() == 36,
    {
        token_text(self.0)
    }
}

/// The text views of a list of strings.
pub open spec fn texts(v: Seq<String>) -> Seq<Seq<char>> {
    v.map_values(|s: String| s@)
}

/// One result row: column names paired positionally with rendered values.
#[derive(Debug)]
pub struct Row {
    /// Names of the columns present in this row
    pub columns: Vec<String>,
    /// Values of the corresponding columns
    pub values: Vec<String>,
}

/// The mathematical content of a row: its column names and its values.
pub struct RowView {
    pub columns: Seq<Seq<char>>,
    pub values: Seq<Seq<char>>,
}

impl View for Row {
    type V = RowView;

    open spec fn view(&self) -> RowView {
        RowView { columns: texts(self.columns@), values: texts(self.values@) }
    }
}

/// The views of a list of rows.
pub open spec fn rows_view(rows: Seq<Row>) -> Seq<RowView> {
    rows.map_values(|r: Row| r@)
}


/// The text position that shows nibble `j`.
pub open spec fn position_of(j: int) -> int {
    if j < 8 {
        j
    } else if j < 12 {
        j + 1
    } else if j < 16 {
        j + 2
    } else if j < 20 {
        j + 3
    } else {
        j + 4
    }
}

proof fn lemma_hex_digit_injective(n: u128, m: u128)
    requires
        n < 16,
        m < 16,
        hex_digit(n) == hex_digit(m),
    ensures
        n == m,
{
    let digits = seq!['0', '1', '2', '3', '4', '5', '6', '7', '8', '9', 'a', 'b', 'c', 'd', 'e', 'f'];
    assert(digits[n as int] == digits[m as int]);
}

proof fn lemma_nibbles_determine(a: u128, b: u128)
    requires
        forall|j: int| 0 <= j < 32 ==> #[trigger] nibble(a, j) == nibble(b, j),
    ensures
        a == b,
{
    assert(nibble(a, 31) == nibble(b, 31));
    assert(nibble(a, 30) == nibble(b, 30));
    assert(nibble(a, 29) == nibble(b, 29));
    assert(nibble(a, 28) == nibble(b, 28));
    assert(nibble(a, 27) == nibble(b, 27));
    assert(nibble(a, 26) == nibble(b, 26));
    assert(nibble(a, 25) == nibble(b, 25));
    assert(nibble(a, 24) == nibble(b, 24));
    assert(nibble(a, 23) == nibble(b, 23));
    assert(nibble(a, 22) == nibble(b, 22));
    assert(nibble(a, 21) == nibble(b, 21));
    assert(nibble(a, 20) == nibble(b, 20));
    assert(nibble(a, 19) == nibble(b, 19));
    assert(nibble(a, 18) == nibble(b, 18));
    assert(nibble(a, 17) == nibble(b, 17));
    assert(nibble(a, 16) == nibble(b, 16));
    assert(nibble(a, 15) == nibble(b, 15));
    assert(nibble(a, 14) == nibble(b, 14));
    assert(nibble(a, 13) == nibble(b, 13));
    assert(nibble(a, 12) == nibble(b, 12));
    assert(nibble(a, 11) == nibble(b, 11));
    assert(nibble(a, 10) == nibble(b, 10));
    assert(nibble(a, 9) == nibble(b, 9));
    assert(nibble(a, 8) == nibble(b, 8));
    assert(nibble(a, 7) == nibble(b, 7));
    assert(nibble(a, 6) == nibble(b, 6));
    assert(nibble(a, 5) == nibble(b, 5));
    assert(nibble(a, 4) == nibble(b, 4));
    assert(nibble(a, 3) == nibble(b, 3));
    assert(nibble(a, 2) == nibble(b, 2));
    assert(nibble(a, 1) == nibble(b, 1));
    assert(nibble(a, 0) == nibble(b, 0));
    assert(
        (a >> 0u128) & 0xfu128 == (b >> 0u128) & 0xfu128 &&
            (a >> 4u128) & 0xfu128 == (b >> 4u128) & 0xfu128 &&
            (a >> 8u128) & 0xfu128 == (b >> 8u128) & 0xfu128 &&
            (a >> 12u128) & 0xfu128 == (b >> 12u128) & 0xfu128 &&
            (a >> 16u128) & 0xfu128 == (b >> 16u128) & 0xfu128 &&
            (a >> 20u128) & 0xfu128 == (b >> 20u128) & 0xfu128 &&
            (a >> 24u128) & 0xfu128 == (b >> 24u128) & 0xfu128 &&
            (a >> 28u128) & 0xfu128 == (b >> 28u128) & 0xfu128 &&
            (a >> 32u128) & 0xfu128 == (b >> 32u128) & 0xfu128 &&
            (a >> 36u128) & 0xfu128 == (b >> 36u128) & 0xfu128 &&
            (a >> 40u128) & 0xfu128 == (b >> 40u128) & 0xfu128 &&
            (a >> 44u128) & 0xfu128 == (b >> 44u128) & 0xfu128 &&
            (a >> 48u128) & 0xfu128 == (b >> 48u128) & 0xfu128 &&
            (a >> 52u128) & 0xfu128 == (b >> 52u128) & 0xfu128 &&
            (a >> 56u128) & 0xfu128 == (b >> 56u128) & 0xfu128 &&
            (a >> 60u128) & 0xfu128 == (b >> 60u128) & 0xfu128 &&
            (a >> 64u128) & 0xfu128 == (b >> 64u128) & 0xfu128 &&
            (a >> 68u128) & 0xfu128 == (b >> 68u128) & 0xfu128 &&
            (a >> 72u128) & 0xfu128 == (b >> 72u128) & 0xfu128 &&
            (a >> 76u128) & 0xfu128 == (b >> 76u128) & 0xfu128 &&
            (a >> 80u128) & 0xfu128 == (b >> 80u128) & 0xfu128 &&
            (a >> 84u128) & 0xfu128 == (b >> 84u128) & 0xfu128 &&
            (a >> 88u128) & 0xfu128 == (b >> 88u128) & 0xfu128 &&
            (a >> 92u128) & 0xfu128 == (b >> 92u128) & 0xfu128 &&
            (a >> 96u128) & 0xfu128 == (b >> 96u128) & 0xfu128 &&
            (a >> 100u128) & 0xfu128 == (b >> 100u128) & 0xfu128 &&
            (a >> 104u128) & 0xfu128 == (b >> 104u128) & 0xfu128 &&
            (a >> 108u128) & 0xfu128 == (b >> 108u128) & 0xfu128 &&
            (a >> 112u128) & 0xfu128 == (b >> 112u128) & 0xfu128 &&
            (a >> 116u128) & 0xfu128 == (b >> 116u128) & 0xfu128 &&
            (a >> 120u128) & 0xfu128 == (b >> 120u128) & 0xfu128 &&
            (a >> 124u128) & 0xfu128 == (b >> 124u128) & 0xfu128 ==> a == b
    ) by (bit_vector);
}

/// Distinct tokens have distinct texts.
pub proof fn lemma_uuid_text_injective(a: u128, b: u128)
    requires
        uuid_text(a) == uuid_text(b),
    ensures
        a == b,
{
    assert forall|j: int| 0 <= j < 32 implies #[trigger] nibble(a, j) == nibble(b, j) by {
        let i = position_of(j);
        assert(!is_hyphen_at(i) && nibble_at(i) == j);
        assert(0 <= i < 36);
        assert(uuid_text(a)[i] == hex_digit(nibble(a, j)));
        assert(uuid_text(b)[i] == hex_digit(nibble(b, j)));
        let x = nibble(a, j);
        let y = nibble(b, j);
        let s = (4 * (31 - j)) as u128;
        assert((a >> s) & 0xfu128 < 16) by (bit_vector);
        assert((b >> s) & 0xfu128 < 16) by (bit_vector);
        lemma_hex_digit_injective(x, y);
    }
    lemma_nibbles_determine(a, b);
}

} // verus!
