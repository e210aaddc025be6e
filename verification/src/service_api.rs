//! Plain data shapes and small validation rules of the service layer that
//! collaborates with the pipeline: request and response records exchanged
//! at the system's edges, identifier normalization, and the fixed subject
//! catalogue used when a school is set up.

use vstd::prelude::*;
use vstd::string::*;
use crate::text::str_eq;

verus! {

#[derive(Debug, Clone)]
pub struct Section {
    pub section_name: String,
    pub student_range: String,
    pub total_students: i32,
    pub room_number: String,
}

#[derive(Debug, Clone)]
pub struct SchoolLoginRequest {
    pub school_id: String,
    pub password: String,
    pub user_type: Option<String>,
}

#[derive(Debug, Clone)]
pub struct LoginResponse {
    pub success: bool,
    pub message: String,
    pub school_id: Option<String>,
    pub password_temp: Option<bool>,
    pub access_token: Option<String>,
    pub expires_in: Option<String>,
}

#[derive(Debug, Clone)]
pub struct TokenVerifyRequest {
    pub token: String,
}

#[derive(Debug, Clone)]
pub struct GenericResponse {
    pub success: bool,
    pub message: String,
}

#[derive(Debug, Clone)]
pub struct SetSecurityRequest {
    pub school_id: String,
    pub question: String,
    pub answer: String,
}

#[derive(Debug, Clone)]
pub struct ForgotPasswordRequest {
    pub school_id: String,
    pub answer: String,
}

#[derive(Debug, Clone)]
pub struct ChangePasswordRequest {
    pub school_id: String,
    pub old_password: String,
    pub new_password: String,
}

#[derive(Debug, Clone)]
pub struct ChangeIdRequest {
    pub old_school_id: String,
    pub password: String,
    pub new_school_id: String,
}

#[derive(Debug, Clone)]
pub struct StudentResponse {
    pub student_id: String,
    pub school_id: String,
    pub name: Option<String>,
    pub class_name: String,
    pub roll_number: i32,
    pub section: String,
    pub gender: Option<String>,
    pub dob: Option<String>,
    pub contact: Option<String>,
    pub address: Option<String>,
    pub parent_name: Option<String>,
    pub parent_contact: Option<String>,
    pub status: String,
    pub created_at: String,
    pub updated_at: String,
}

#[derive(Debug, Clone)]
pub struct DateQuery {
    pub date: String,
}

#[derive(Debug, Clone)]
pub struct MobileLoginRequest {
    pub ident: String,
    pub role: String,
}

#[derive(Debug, Clone)]
pub struct MobileVerifyRequest {
    pub ident: String,
    pub role: String,
    pub otp: String,
}

#[derive(Debug, Clone)]
pub struct OcrParams {
    pub engine: Option<String>,
}

#[derive(Debug, Clone)]
pub struct PaginationParams {
    pub page: u32,
    pub limit: u32,
}

impl core::default::Default for PaginationParams {
    /// The first page, fifty records at a time.
    fn default() -> (r: PaginationParams)
        ensures
            r.page == 1,
            r.limit == 50,
    {
        PaginationParams { page: 1, limit: 50 }
    }
}

/// The roles a per-person attendance record can be kept for.
pub open spec fn valid_role(role: Seq<char>) -> bool {
    role == "student"@ || role == "employee"@
}

/// Accepts exactly the two person roles; any other role is rejected with
/// a message naming it.
pub fn validate_role(role: &str) -> (r: Result<(), String>)
    ensures
        r is Ok <==> valid_role(role@),
        r matches Err(m) ==> m@ == "Invalid role '"@ + role@
            + "'. Must be 'student' or 'employee'."@,
{
    if str_eq(role, "student") || str_eq(role, "employee") {
        Ok(())
    } else {
        let mut m = String::from_str("Invalid role '");
        m.append(role);
        m.append("'. Must be 'student' or 'employee'.");
        proof {
            assert(m@ =~= "Invalid role '"@ + role@ + "'. Must be 'student' or 'employee'."@);
        }
        Err(m)
    }
}

/// Relies on str::to_lowercase: the result depends on the characters
/// alone.
pub uninterp spec fn lower_of(s: Seq<char>) -> Seq<char>;

/// Relies on str::to_lowercase: the Unicode lowercase form of the text.
#[verifier::external_body]
fn to_lowercase_str(s: &str) -> (r: String)
    ensures
        r@ == lower_of(s@),
        s@.len() == 0 ==> r@.len() == 0,
{
    s.to_lowercase()
}

/// Every space replaced by a dash, other characters kept.
pub open spec fn dash_for_space(s: Seq<char>) -> Seq<char> {
    s.map_values(|c: char| if c == ' ' { '-' } else { c })
}

/// Normalizes an identifier: lowercased, with spaces turned into dashes.
pub fn normalize_id(id: &str) -> (r: String)
    ensures
        r@ == dash_for_space(lower_of(id@)),
{
    let low = to_lowercase_str(id);
    let low_str = low.as_str();
    let n = low_str.unicode_len();
    let mut out = String::new();
    let mut i: usize = 0;
    while i < n
        invariant
            0 <= i <= n,
            n == low_str@.len(),
            low_str@ == lower_of(id@),
            out@ == dash_for_space(low_str@.take(i as int)),
        decreases n - i,
    {
        let c = low_str.get_char(i);
        if c == ' ' {
            out.append("-");
            proof {
                reveal_strlit("-");
            }
        } else {
            let piece = low_str.substring_char(i, i + 1);
            out.append(piece);
        }
        proof {
            assert(out@ =~= dash_for_space(low_str@.take(i + 1)));
        }
        i += 1;
    }
    proof {
        assert(low_str@.take(n as int) =~= low_str@);
    }
    out
}

/// The fixed subject catalogue: each class name paired with the subjects
/// offered for it at school setup.
pub open spec fn subjects_table() -> Seq<(Seq<char>, Seq<Seq<char>>)> {
    seq![
        ("Pre-Nursery"@, seq!["English"@, "Hindi"@, "Mathematics"@, "Art and Craft"@]),
        ("Nursery"@, seq!["English"@, "Hindi"@, "Mathematics"@, "Environmental Studies"@]),
        ("Kindergarten"@, seq!["English"@, "Hindi"@, "Mathematics"@, "Environmental Studies"@]),
        ("Class 1"@, seq!["English"@, "Hindi"@, "Mathematics"@, "EVS"@, "General Knowledge"@]),
        ("Class 2"@, seq!["English"@, "Hindi"@, "Mathematics"@, "EVS"@, "General Knowledge"@]),
        ("Class 3"@, seq!["English"@, "Hindi"@, "Mathematics"@, "EVS"@, "General Knowledge"@]),
        ("Class 4"@, seq!["English"@, "Hindi"@, "Mathematics"@, "Science"@, "Social Studies"@]),
        ("Class 5"@, seq!["English"@, "Hindi"@, "Mathematics"@, "Science"@, "Social Studies"@]),
        ("Class 6"@, seq!["English"@, "Hindi"@, "Maths"@, "Science"@, "History"@, "Geography"@]),
        ("Class 7"@, seq!["English"@, "Hindi"@, "Maths"@, "Science"@, "History"@, "Geography"@]),
        ("Class 8"@, seq!["English"@, "Hindi"@, "Maths"@, "Science"@, "History"@, "Geography"@]),
        ("Class 9"@, seq!["English"@, "Hindi"@, "Maths"@, "Physics"@, "Chemistry"@, "Biology"@]),
        ("Class 10"@, seq!["English"@, "Hindi"@, "Maths"@, "Physics"@, "Chemistry"@, "Biology"@]),
        ("Class 11 Science"@, seq!["Physics"@, "Chemistry"@, "Maths"@, "Biology"@, "English"@]),
        ("Class 11 Commerce"@, seq!["Accountancy"@, "Business Studies"@, "Economics"@, "English"@]),
        ("Class 11 Humanities"@, seq!["History"@, "Political Science"@, "Geography"@, "English"@]),
        ("Class 12 Science"@, seq!["Physics"@, "Chemistry"@, "Maths"@, "Biology"@, "English"@]),
        ("Class 12 Commerce"@, seq!["Accountancy"@, "Business Studies"@, "Economics"@, "English"@]),
        ("Class 12 Humanities"@, seq!["History"@, "Political Science"@, "Geography"@, "English"@]),
    ]
}

/// The subject catalogue, every class and its subjects exactly as the
/// setup rules fix them.
#[verifier::rlimit(100)]
pub fn get_subjects() -> (r: Vec<(String, Vec<String>)>)
    ensures
        r.deep_view() == subjects_table(),
{
    let mut table: Vec<(String, Vec<String>)> = Vec::new();
    let mut row0: Vec<String> = Vec::new();
    row0.push(String::from_str("English"));
    row0.push(String::from_str("Hindi"));
    row0.push(String::from_str("Mathematics"));
    row0.push(String::from_str("Art and Craft"));
    table.push((String::from_str("Pre-Nursery"), row0));
    let mut row1: Vec<String> = Vec::new();
    row1.push(String::from_str("English"));
    row1.push(String::from_str("Hindi"));
    row1.push(String::from_str("Mathematics"));
    row1.push(String::from_str("Environmental Studies"));
    table.push((String::from_str("Nursery"), row1));
    let mut row2: Vec<String> = Vec::new();
    row2.push(String::from_str("English"));
    row2.push(String::from_str("Hindi"));
    row2.push(String::from_str("Mathematics"));
    row2.push(String::from_str("Environmental Studies"));
    table.push((String::from_str("Kindergarten"), row2));
    let mut row3: Vec<String> = Vec::new();
    row3.push(String::from_str("English"));
    row3.push(String::from_str("Hindi"));
    row3.push(String::from_str("Mathematics"));
    row3.push(String::from_str("EVS"));
    row3.push(String::from_str("General Knowledge"));
    table.push((String::from_str("Class 1"), row3));
    let mut row4: Vec<String> = Vec::new();
    row4.push(String::from_str("English"));
    row4.push(String::from_str("Hindi"));
    row4.push(String::from_str("Mathematics"));
    row4.push(String::from_str("EVS"));
    row4.push(String::from_str("General Knowledge"));
    table.push((String::from_str("Class 2"), row4));
    let mut row5: Vec<String> = Vec::new();
    row5.push(String::from_str("English"));
    row5.push(String::from_str("Hindi"));
    row5.push(String::from_str("Mathematics"));
    row5.push(String::from_str("EVS"));
    row5.push(String::from_str("General Knowledge"));
    table.push((String::from_str("Class 3"), row5));
    let mut row6: Vec<String> = Vec::new();
    row6.push(String::from_str("English"));
    row6.push(String::from_str("Hindi"));
    row6.push(String::from_str("Mathematics"));
    row6.push(String::from_str("Science"));
    row6.push(String::from_str("Social Studies"));
    table.push((String::from_str("Class 4"), row6));
    let mut row7: Vec<String> = Vec::new();
    row7.push(String::from_str("English"));
    row7.push(String::from_str("Hindi"));
    row7.push(String::from_str("Mathematics"));
    row7.push(String::from_str("Science"));
    row7.push(String::from_str("Social Studies"));
    table.push((String::from_str("Class 5"), row7));
    let mut row8: Vec<String> = Vec::new();
    row8.push(String::from_str("English"));
    row8.push(String::from_str("Hindi"));
    row8.push(String::from_str("Maths"));
    row8.push(String::from_str("Science"));
    row8.push(String::from_str("History"));
    row8.push(String::from_str("Geography"));
    table.push((String::from_str("Class 6"), row8));
    let mut row9: Vec<String> = Vec::new();
    row9.push(String::from_str("English"));
    row9.push(String::from_str("Hindi"));
    row9.push(String::from_str("Maths"));
    row9.push(String::from_str("Science"));
    row9.push(String::from_str("History"));
    row9.push(String::from_str("Geography"));
    table.push((String::from_str("Class 7"), row9));
    let mut row10: Vec<String> = Vec::new();
    row10.push(String::from_str("English"));
    row10.push(String::from_str("Hindi"));
    row10.push(String::from_str("Maths"));
    row10.push(String::from_str("Science"));
    row10.push(String::from_str("History"));
    row10.push(String::from_str("Geography"));
    table.push((String::from_str("Class 8"), row10));
    let mut row11: Vec<String> = Vec::new();
    row11.push(String::from_str("English"));
    row11.push(String::from_str("Hindi"));
    row11.push(String::from_str("Maths"));
    row11.push(String::from_str("Physics"));
    row11.push(String::from_str("Chemistry"));
    row11.push(String::from_str("Biology"));
    table.push((String::from_str("Class 9"), row11));
    let mut row12: Vec<String> = Vec::new();
    row12.push(String::from_str("English"));
    row12.push(String::from_str("Hindi"));
    row12.push(String::from_str("Maths"));
    row12.push(String::from_str("Physics"));
    row12.push(String::from_str("Chemistry"));
    row12.push(String::from_str("Biology"));
    table.push((String::from_str("Class 10"), row12));
    let mut row13: Vec<String> = Vec::new();
    row13.push(String::from_str("Physics"));
    row13.push(String::from_str("Chemistry"));
    row13.push(String::from_str("Maths"));
    row13.push(String::from_str("Biology"));
    row13.push(String::from_str("English"));
    table.push((String::from_str("Class 11 Science"), row13));
    let mut row14: Vec<String> = Vec::new();
    row14.push(String::from_str("Accountancy"));
    row14.push(String::from_str("Business Studies"));
    row14.push(String::from_str("Economics"));
    row14.push(String::from_str("English"));
    table.push((String::from_str("Class 11 Commerce"), row14));
    let mut row15: Vec<String> = Vec::new();
    row15.push(String::from_str("History"));
    row15.push(String::from_str("Political Science"));
    row15.push(String::from_str("Geography"));
    row15.push(String::from_str("English"));
    table.push((String::from_str("Class 11 Humanities"), row15));
    let mut row16: Vec<String> = Vec::new();
    row16.push(String::from_str("Physics"));
    row16.push(String::from_str("Chemistry"));
    row16.push(String::from_str("Maths"));
    row16.push(String::from_str("Biology"));
    row16.push(String::from_str("English"));
    table.push((String::from_str("Class 12 Science"), row16));
    let mut row17: Vec<String> = Vec::new();
    row17.push(String::from_str("Accountancy"));
    row17.push(String::from_str("Business Studies"));
    row17.push(String::from_str("Economics"));
    row17.push(String::from_str("English"));
    table.push((String::from_str("Class 12 Commerce"), row17));
    let mut row18: Vec<String> = Vec::new();
    row18.push(String::from_str("History"));
    row18.push(String::from_str("Political Science"));
    row18.push(String::from_str("Geography"));
    row18.push(String::from_str("English"));
    table.push((String::from_str("Class 12 Humanities"), row18));
    proof {
        assert(table.deep_view() =~~= subjects_table());
    }
    table
}

} // verus!
