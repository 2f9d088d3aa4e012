use vstd::prelude::*;

use crate::template::{decimal, decimal_exec};
use crate::text::string_of;

verus! {

/// `d` padded on the left with zeros to at least four characters.
pub open spec fn pad4(d: Seq<char>) -> Seq<char> {
    if d.len() < 4 {
        Seq::new((4 - d.len()) as nat, |i: int| '0') + d
    } else {
        d
    }
}

/// The values drawn for one test row.
pub struct TestRowDraw {
    /// The row's number, from one.
    pub number: usize,
    pub zip_code: String,
    /// The canonical code of the postal code.
    pub fips_code: String,
    pub field1: usize,
    pub field2: usize,
    /// The row matches the default selection condition.
    pub selected: bool,
    /// The four-digit extension of the postal code.
    pub extension: usize,
}

/// The statement that inserts a test row.
pub open spec fn test_insert_statement(d: TestRowDraw) -> Seq<char> {
    "INSERT INTO table_name (key_field, field1, field2, condition, county, zip_code) VALUES ('"@
        + "testkey_"@ + decimal(d.number as nat)
        + "', '"@ + "value_"@ + decimal(d.field1 as nat)
        + "', '"@ + "data_"@ + decimal(d.field2 as nat)
        + "', '"@ + (if d.selected { "t"@ } else { "f"@ })
        + "', '"@ + d.fips_code@
        + "', '"@ + d.zip_code@ + "-"@ + pad4(decimal(d.extension as nat))
        + "')"@
}

fn append_decimal(s: &mut String, n: usize)
    ensures
        final(s)@ == old(s)@ + decimal(n as nat),
{
    let d = string_of(&decimal_exec(n));
    s.append(d.as_str());
}

/// The statement that inserts the test row of a draw.
pub fn build_test_insert(d: &TestRowDraw) -> (r: String)
    ensures
        r@ == test_insert_statement(*d),
{
    let mut q = "INSERT INTO table_name (key_field, field1, field2, condition, county, zip_code) VALUES ('".to_string();
    q.append("testkey_");
    append_decimal(&mut q, d.number);
    q.append("', '");
    q.append("value_");
    append_decimal(&mut q, d.field1);
    q.append("', '");
    q.append("data_");
    append_decimal(&mut q, d.field2);
    q.append("', '");
    if d.selected {
        q.append("t");
    } else {
        q.append("f");
    }
    q.append("', '");
    q.append(d.fips_code.as_str());
    q.append("', '");
    q.append(d.zip_code.as_str());
    q.append("-");
    let digits = decimal_exec(d.extension);
    let mut k: usize = digits.len();
    let ghost before = q@;
    while k < 4
        invariant
            digits.len() <= k <= 4 || (k == digits.len() && k >= 4),
            q@ == before + Seq::new((k - digits@.len()) as nat, |i: int| '0'),
        decreases 4 - k,
    {
        crate::text::push_char(&mut q, '0');
        k = k + 1;
        assert(q@ =~= before + Seq::new((k - digits@.len()) as nat, |i: int| '0'));
    }
    q.append(string_of(&digits).as_str());
    q.append("')");
    q
}

} // verus!
