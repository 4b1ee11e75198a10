//! Administrator rules: input validation, CSV export, sign-in and the
//! review and status decisions of the back office.
use vstd::prelude::*;
use argon2::PasswordVerifier;
use crate::agent::texts;
use crate::error::{AppError, is_bad_request, is_not_found, bad_request, not_found};
use crate::models::{
    BudgetOptionInput, PartnerInput, PlanInput, SongInput, TargetTypeInput,
};
use crate::text::{
    chars_of, concat2, has_prefix, is_white_space, owned, push_char, push_str, str_eq,
    string_from_chars, trim, trim_seq,
};

verus! {

// ---------------------------------------------------------------------------
// Validation
// ---------------------------------------------------------------------------

/// The refusal for a blank required field, if `value` is blank.
pub open spec fn required_error(value: Seq<char>, field: Seq<char>) -> Option<Seq<char>> {
    if trim_seq(value).len() == 0 {
        Some(field + " is required"@)
    } else {
        None
    }
}

/// A validation outcome agrees with the expected refusal (`None`: accepted).
pub open spec fn refused_as(r: Result<(), AppError>, expected: Option<Seq<char>>) -> bool {
    match expected {
        None => r is Ok,
        Some(m) => (r matches Err(e) && is_bad_request(e, m)),
    }
}

/// The first refusal among two checks made in order.
pub open spec fn first_error(a: Option<Seq<char>>, b: Option<Seq<char>>) -> Option<Seq<char>> {
    if a is Some {
        a
    } else {
        b
    }
}

/// `validate_required`: refuses a blank value.
pub fn validate_required(value: &str, field: &str) -> (r: Result<(), AppError>)
    ensures
        refused_as(r, required_error(value@, field@)),
{
    if crate::text::is_blank(value) {
        return Err(AppError::BadRequest(concat2(field, " is required")));
    }
    Ok(())
}

/// The refusal for a target type, if any.
pub open spec fn target_type_error(input: TargetTypeInput) -> Option<Seq<char>> {
    first_error(
        required_error(input.key@, "key"@),
        first_error(
            required_error(input.icon_class@, "icon_class"@),
            first_error(
                required_error(input.title@, "title"@),
                required_error(input.description@, "description"@),
            ),
        ),
    )
}

/// `validate_target_type`: key, icon, title and description are required.
pub fn validate_target_type(input: &TargetTypeInput) -> (r: Result<(), AppError>)
    ensures
        refused_as(r, target_type_error(*input)),
{
    validate_required(input.key.as_str(), "key")?;
    validate_required(input.icon_class.as_str(), "icon_class")?;
    validate_required(input.title.as_str(), "title")?;
    validate_required(input.description.as_str(), "description")?;
    Ok(())
}

/// The refusal for a budget option, if any.
pub open spec fn budget_option_error(input: BudgetOptionInput) -> Option<Seq<char>> {
    first_error(
        required_error(input.id@, "id"@),
        first_error(
            required_error(input.label@, "label"@),
            match (input.min_amount, input.max_amount) {
                (Some(min), Some(max)) => if min > max {
                    Some("min amount cannot exceed max amount"@)
                } else {
                    None
                },
                _ => None,
            },
        ),
    )
}

/// `validate_budget_option`: id and label are required, and a given minimum
/// may not exceed a given maximum.
pub fn validate_budget_option(input: &BudgetOptionInput) -> (r: Result<(), AppError>)
    ensures
        refused_as(r, budget_option_error(*input)),
{
    validate_required(input.id.as_str(), "id")?;
    validate_required(input.label.as_str(), "label")?;
    match (input.min_amount, input.max_amount) {
        (Some(min), Some(max)) => {
            if min > max {
                return Err(bad_request("min amount cannot exceed max amount"));
            }
        },
        _ => {},
    }
    Ok(())
}

/// The refusal for a partner edit, if any.
pub open spec fn partner_error(input: PartnerInput) -> Option<Seq<char>> {
    if input.partner_type@ != "provider"@ && input.partner_type@ != "client"@ {
        Some("invalid partner type"@)
    } else {
        first_error(
            required_error(input.name@, "name"@),
            first_error(
                required_error(input.description@, "description"@),
                if !(0 <= input.match_score <= 100) {
                    Some("match score must be between 0 and 100"@)
                } else {
                    None
                },
            ),
        )
    }
}

/// `validate_partner`: a known partner type, a name, a description and a
/// match score in `[0, 100]`.
pub fn validate_partner(input: &PartnerInput) -> (r: Result<(), AppError>)
    ensures
        refused_as(r, partner_error(*input)),
{
    if !str_eq(input.partner_type.as_str(), "provider") && !str_eq(
        input.partner_type.as_str(),
        "client",
    ) {
        return Err(bad_request("invalid partner type"));
    }
    validate_required(input.name.as_str(), "name")?;
    validate_required(input.description.as_str(), "description")?;
    if !(0 <= input.match_score && input.match_score <= 100) {
        return Err(bad_request("match score must be between 0 and 100"));
    }
    Ok(())
}

/// The refusal for a plan edit, if any.
pub open spec fn plan_error(input: PlanInput) -> Option<Seq<char>> {
    first_error(
        required_error(input.title@, "title"@),
        first_error(
            required_error(input.description@, "description"@),
            if input.budget_amount < 0 || !(0 <= input.score <= 100) {
                Some("invalid budget or score"@)
            } else {
                None
            },
        ),
    )
}

/// `validate_plan`: a title, a description, a budget of at least zero and a
/// score in `[0, 100]`.
pub fn validate_plan(input: &PlanInput) -> (r: Result<(), AppError>)
    ensures
        refused_as(r, plan_error(*input)),
{
    validate_required(input.title.as_str(), "title")?;
    validate_required(input.description.as_str(), "description")?;
    if input.budget_amount < 0 || !(0 <= input.score && input.score <= 100) {
        return Err(bad_request("invalid budget or score"));
    }
    Ok(())
}

/// `ensure_changed`: an update that touched no row addressed a missing record.
pub fn ensure_changed(rows: u64, entity: &str) -> (r: Result<(), AppError>)
    ensures
        rows == 0 ==> (r matches Err(e) && is_not_found(e, entity@ + " not found"@)),
        rows != 0 ==> r is Ok,
{
    if rows == 0 {
        return Err(AppError::NotFound(concat2(entity, " not found")));
    }
    Ok(())
}

// ---------------------------------------------------------------------------
// CSV
// ---------------------------------------------------------------------------

/// `s` with every double quote doubled.
pub open spec fn double_quotes(s: Seq<char>) -> Seq<char>
    decreases s.len(),
{
    if s.len() == 0 {
        s
    } else {
        (if s[0] == '"' {
            seq!['"', '"']
        } else {
            seq![s[0]]
        }) + double_quotes(s.drop_first())
    }
}

/// A field needs quoting when it holds a comma, a quote or a line break.
pub open spec fn needs_quoting(s: Seq<char>) -> bool {
    s.contains(',') || s.contains('"') || s.contains('\n') || s.contains('\r')
}

/// A CSV cell for `s`: quoted, with quotes doubled, where it needs quoting.
pub open spec fn csv_field(s: Seq<char>) -> Seq<char> {
    if needs_quoting(s) {
        seq!['"'] + double_quotes(s) + seq!['"']
    } else {
        s
    }
}

proof fn lemma_double_quotes_append(s: Seq<char>, c: char)
    ensures
        double_quotes(s.push(c)) == double_quotes(s) + (if c == '"' {
            seq!['"', '"']
        } else {
            seq![c]
        }),
    decreases s.len(),
{
    let tail = if c == '"' {
        seq!['"', '"']
    } else {
        seq![c]
    };
    if s.len() > 0 {
        let head = if s[0] == '"' {
            seq!['"', '"']
        } else {
            seq![s[0]]
        };
        assert(s.push(c).drop_first() =~= s.drop_first().push(c));
        lemma_double_quotes_append(s.drop_first(), c);
        assert(s.push(c)[0] == s[0]);
        assert(double_quotes(s.push(c)) == head + double_quotes(s.drop_first().push(c)));
        assert(double_quotes(s) == head + double_quotes(s.drop_first()));
        assert(head + (double_quotes(s.drop_first()) + tail) =~= (head + double_quotes(
            s.drop_first(),
        )) + tail);
    } else {
        assert(s.push(c).drop_first() =~= Seq::<char>::empty());
        assert(s.push(c)[0] == c);
        assert(double_quotes(Seq::<char>::empty()) =~= Seq::<char>::empty());
        assert(double_quotes(s.push(c)) == tail + double_quotes(Seq::<char>::empty()));
        assert(tail + Seq::<char>::empty() =~= tail);
        assert(double_quotes(s) =~= Seq::<char>::empty());
        assert(Seq::<char>::empty() + tail =~= tail);
    }
}

/// `csv_escape`: the CSV cell for `value`.
pub fn csv_escape(value: &str) -> (cell: String)
    ensures
        cell@ == csv_field(value@),
{
    let v = chars_of(value);
    if !(crate::text::has_char(v.as_slice(), ',') || crate::text::has_char(v.as_slice(), '"')
        || crate::text::has_char(v.as_slice(), '\n') || crate::text::has_char(
        v.as_slice(),
        '\r',
    )) {
        return owned(value);
    }
    let mut out = String::new();
    push_char(&mut out, '"');
    let n = v.len();
    for i in 0..n
        invariant
            n == v@.len(),
            out@ == seq!['"'] + double_quotes(v@.take(i as int)),
    {
        proof {
            lemma_double_quotes_append(v@.take(i as int), v@[i as int]);
            assert(v@.take(i + 1) =~= v@.take(i as int).push(v@[i as int]));
        }
        if v[i] == '"' {
            push_char(&mut out, '"');
            push_char(&mut out, '"');
        } else {
            push_char(&mut out, v[i]);
        }
        assert(out@ =~= seq!['"'] + double_quotes(v@.take(i + 1)));
    }
    assert(v@.take(n as int) =~= v@);
    push_char(&mut out, '"');
    out
}

/// Cells joined with commas.
pub open spec fn join_cells(cells: Seq<Seq<char>>) -> Seq<char>
    decreases cells.len(),
{
    if cells.len() == 0 {
        Seq::empty()
    } else if cells.len() == 1 {
        cells[0]
    } else {
        join_cells(cells.drop_last()) + seq![','] + cells.last()
    }
}

/// The CSV line of the fields, ended by a line break.
pub open spec fn csv_line_spec(fields: Seq<Seq<char>>) -> Seq<char> {
    join_cells(fields.map_values(|f: Seq<char>| csv_field(f))) + seq!['\n']
}

/// `csv_line`: the escaped fields joined by commas, with a line break.
pub fn csv_line(fields: &[&str]) -> (line: String)
    ensures
        line@ == csv_line_spec(fields@.map_values(|f: &str| f@)),
{
    let ghost views = fields@.map_values(|f: &str| f@);
    let ghost cells = views.map_values(|f: Seq<char>| csv_field(f));
    let mut out = String::new();
    let n = fields.len();
    for i in 0..n
        invariant
            n == fields@.len(),
            views == fields@.map_values(|f: &str| f@),
            cells == views.map_values(|f: Seq<char>| csv_field(f)),
            out@ == join_cells(cells.take(i as int)),
    {
        assert(cells.take(i + 1).drop_last() =~= cells.take(i as int));
        if i > 0 {
            push_char(&mut out, ',');
        } else {
            assert(cells.take(0) =~= Seq::<Seq<char>>::empty());
        }
        let cell = csv_escape(fields[i]);
        push_str(&mut out, cell.as_str());
    }
    assert(cells.take(n as int) =~= cells);
    push_char(&mut out, '\n');
    out
}

/// `double_quotes` read back: a pair of quotes is one quote.
pub open spec fn undouble_quotes(t: Seq<char>) -> Seq<char>
    decreases t.len(),
{
    if t.len() == 0 {
        t
    } else if t[0] == '"' && t.len() >= 2 && t[1] == '"' {
        seq!['"'] + undouble_quotes(t.subrange(2, t.len() as int))
    } else {
        seq![t[0]] + undouble_quotes(t.drop_first())
    }
}

/// How a CSV reader reads one cell back.
pub open spec fn read_csv_field(t: Seq<char>) -> Seq<char> {
    if t.len() >= 2 && t[0] == '"' && t.last() == '"' {
        undouble_quotes(t.subrange(1, t.len() - 1))
    } else {
        t
    }
}

pub proof fn lemma_undouble(s: Seq<char>)
    ensures
        undouble_quotes(double_quotes(s)) == s,
    decreases s.len(),
{
    if s.len() > 0 {
        lemma_undouble(s.drop_first());
        let d = double_quotes(s);
        let rest = double_quotes(s.drop_first());
        if s[0] == '"' {
            assert(d.subrange(2, d.len() as int) =~= rest);
        } else {
            assert(d.drop_first() =~= rest);
        }
        assert(seq![s[0]] + s.drop_first() =~= s);
    }
}

/// An exported cell reads back as the value it was made from.
pub proof fn law_csv_cell_round_trip(s: Seq<char>)
    ensures
        read_csv_field(csv_field(s)) == s,
{
    if needs_quoting(s) {
        let t = csv_field(s);
        lemma_undouble(s);
        assert(t.subrange(1, t.len() - 1) =~= double_quotes(s));
    } else {
        assert(!s.contains('"'));
        if s.len() >= 2 && s[0] == '"' {
            assert(s.contains('"'));
        }
    }
}

/// An exported cell holds no comma or line break outside its quotes: it is
/// either free of them or enclosed in quotes with every inner quote doubled.
pub proof fn law_csv_cell_is_quoted_when_needed(s: Seq<char>)
    ensures
        needs_quoting(s) ==> csv_field(s) == seq!['"'] + double_quotes(s) + seq!['"'],
        !needs_quoting(s) ==> csv_field(s) == s && !s.contains(',') && !s.contains('\n'),
{
}

/// `是` for a set flag, `否` otherwise, as the exports print booleans.
pub fn yes_no(flag: i64) -> (text: &'static str)
    ensures
        text@ == (if flag == 1 {
            "是"@
        } else {
            "否"@
        }),
{
    if flag == 1 {
        "是"
    } else {
        "否"
    }
}

/// A CSV document: the header line, then one line per row.
pub open spec fn csv_document_spec(header: Seq<Seq<char>>, rows: Seq<Seq<Seq<char>>>) -> Seq<char>
    decreases rows.len(),
{
    if rows.len() == 0 {
        csv_line_spec(header)
    } else {
        csv_document_spec(header, rows.drop_last()) + csv_line_spec(rows.last())
    }
}

/// The texts of the rows.
pub open spec fn rows_view(rows: Seq<Vec<String>>) -> Seq<Seq<Seq<char>>> {
    rows.map_values(|r: Vec<String>| texts(r@))
}

/// A CSV line from owned cells.
fn csv_line_owned(fields: &Vec<String>) -> (line: String)
    ensures
        line@ == csv_line_spec(texts(fields@)),
{
    let ghost views = texts(fields@);
    let ghost cells = views.map_values(|f: Seq<char>| csv_field(f));
    let mut out = String::new();
    let n = fields.len();
    for i in 0..n
        invariant
            n == fields@.len(),
            views == texts(fields@),
            cells == views.map_values(|f: Seq<char>| csv_field(f)),
            out@ == join_cells(cells.take(i as int)),
    {
        assert(cells.take(i + 1).drop_last() =~= cells.take(i as int));
        if i > 0 {
            push_char(&mut out, ',');
        } else {
            assert(cells.take(0) =~= Seq::<Seq<char>>::empty());
        }
        let cell = csv_escape(fields[i].as_str());
        push_str(&mut out, cell.as_str());
    }
    assert(cells.take(n as int) =~= cells);
    push_char(&mut out, '\n');
    out
}

/// An export: the header line followed by one escaped line per row, as the
/// administrator exports build them.
pub fn csv_document(header: &[&str], rows: &Vec<Vec<String>>) -> (doc: String)
    ensures
        doc@ == csv_document_spec(header@.map_values(|f: &str| f@), rows_view(rows@)),
{
    let mut out = csv_line(header);
    let n = rows.len();
    for i in 0..n
        invariant
            n == rows@.len(),
            out@ == csv_document_spec(
                header@.map_values(|f: &str| f@),
                rows_view(rows@).take(i as int),
            ),
    {
        assert(rows_view(rows@).take(i + 1).drop_last() =~= rows_view(rows@).take(i as int));
        assert(rows_view(rows@).take(0) =~= Seq::<Seq<Seq<char>>>::empty());
        let line = csv_line_owned(&rows[i]);
        push_str(&mut out, line.as_str());
    }
    assert(rows_view(rows@).take(n as int) =~= rows_view(rows@));
    out
}

// ---------------------------------------------------------------------------
// Queries
// ---------------------------------------------------------------------------

/// `admin_users_query`: the user list query, limited to six rows on the
/// overview.
pub fn admin_users_query(limited: bool) -> (q: String)
    ensures
        q@ == (if limited {
            ADMIN_USERS_SELECT@ + " LIMIT 6"@
        } else {
            ADMIN_USERS_SELECT@
        }),
{
    if limited {
        concat2(ADMIN_USERS_SELECT, " LIMIT 6")
    } else {
        owned(ADMIN_USERS_SELECT)
    }
}

/// The user list query, pending applications first, newest first.
pub const ADMIN_USERS_SELECT: &'static str = "SELECT u.id, u.organization, u.role, u.avatar, u.verified,
         u.onboarding_status,
         COALESCE(a.contact_name, '') AS contact_name,
         COALESCE(a.contact_method, '') AS contact_method,
         COALESCE(a.description, '') AS application_description,
         COALESCE(a.tags, '[]') AS tags_json,
         COALESCE(a.work_title, '') AS work_title,
         COALESCE(a.work_url, '') AS work_url,
         COALESCE(a.work_file_url, '') AS work_file_url,
         COALESCE(a.work_file_name, '') AS work_file_name,
         COALESCE(a.verification_items, '[]') AS verification_items_json,
         COALESCE(a.audience_size, '') AS audience_size,
         COALESCE(a.cooperation_budget, '') AS cooperation_budget,
         u.review_note,
         COALESCE(a.submitted_at, u.created_at) AS submitted_at,
         a.reviewed_at,
         u.created_at
         FROM users u
         LEFT JOIN onboarding_applications a ON a.user_id = u.id
         ORDER BY CASE WHEN u.onboarding_status = 'pending' THEN 0 ELSE 1 END,
         submitted_at DESC";


// ---------------------------------------------------------------------------
// Administrator sign-in
// ---------------------------------------------------------------------------

/// `s` cut at every `sep`, as `str::split` cuts it.
pub open spec fn split_on(s: Seq<char>, sep: char) -> Seq<Seq<char>>
    decreases s.len(),
{
    if s.len() == 0 {
        seq![Seq::<char>::empty()]
    } else {
        let init = split_on(s.drop_last(), sep);
        if s.last() == sep {
            init.push(Seq::empty())
        } else {
            init.update(init.len() - 1, init.last().push(s.last()))
        }
    }
}

proof fn lemma_split_on_nonempty(s: Seq<char>, sep: char)
    ensures
        split_on(s, sep).len() > 0,
    decreases s.len(),
{
    if s.len() > 0 {
        lemma_split_on_nonempty(s.drop_last(), sep);
    }
}

/// The cut pieces of `s`.
fn split_chars(s: &[char], sep: char) -> (parts: Vec<Vec<char>>)
    ensures
        parts@.map_values(|p: Vec<char>| p@) == split_on(s@, sep),
{
    let mut parts: Vec<Vec<char>> = Vec::new();
    parts.push(Vec::new());
    let n = s.len();
    assert(parts@.map_values(|p: Vec<char>| p@) =~= split_on(s@.take(0), sep));
    for i in 0..n
        invariant
            n == s@.len(),
            parts@.len() > 0,
            parts@.map_values(|p: Vec<char>| p@) == split_on(s@.take(i as int), sep),
    {
        let ghost before = parts@.map_values(|p: Vec<char>| p@);
        assert(s@.take(i + 1).drop_last() =~= s@.take(i as int));
        assert(s@.take(i + 1).last() == s@[i as int]);
        if s[i] == sep {
            parts.push(Vec::new());
            assert(parts@.map_values(|p: Vec<char>| p@) =~= before.push(Seq::empty()));
        } else {
            let last = parts.len() - 1;
            let mut piece = parts.remove(last);
            piece.push(s[i]);
            parts.push(piece);
            assert(parts@.map_values(|p: Vec<char>| p@) =~= before.update(
                before.len() - 1,
                before.last().push(s@[i as int]),
            ));
        }
    }
    assert(s@.take(n as int) =~= s@);
    parts
}

/// The value of the first cookie, among the trimmed `;`-separated pieces
/// from index `i` on, that starts with `name`.
pub open spec fn find_cookie(pieces: Seq<Seq<char>>, name: Seq<char>, i: int) -> Option<Seq<char>>
    decreases pieces.len() - i,
{
    if i < 0 || i >= pieces.len() {
        None
    } else if has_prefix(trim_seq(pieces[i]), name) {
        Some(trim_seq(pieces[i]).skip(name.len() as int))
    } else {
        find_cookie(pieces, name, i + 1)
    }
}

/// The administrator session token a `Cookie` header value carries.
pub open spec fn admin_cookie_spec(cookies: Seq<char>) -> Option<Seq<char>> {
    find_cookie(split_on(cookies, ';'), "admin_session="@, 0)
}

/// `admin_cookie`: the `admin_session` token of the `Cookie` header (given as
/// its text where the header is present and readable).
pub fn admin_cookie(cookie_header: Option<&str>) -> (token: Option<String>)
    ensures
        match cookie_header {
            None => token is None,
            Some(h) => match token {
                Some(t) => admin_cookie_spec(h@) == Some(t@),
                None => admin_cookie_spec(h@) is None,
            },
        },
{
    let header = match cookie_header {
        Some(h) => h,
        None => return None,
    };
    let c = chars_of(header);
    let parts = split_chars(c.as_slice(), ';');
    let ghost pieces = parts@.map_values(|p: Vec<char>| p@);
    let name = chars_of("admin_session=");
    let n = parts.len();
    for i in 0..n
        invariant
            n == parts@.len(),
            pieces == parts@.map_values(|p: Vec<char>| p@),
            pieces == split_on(header@, ';'),
            name@ == "admin_session="@,
            cookie_header == Some(header),
            find_cookie(pieces, name@, 0) == find_cookie(pieces, name@, i as int),
    {
        let t = crate::text::trim_chars(parts[i].as_slice());
        assert(parts@[i as int]@ == pieces[i as int]);
        if crate::text::starts_with_chars(t.as_slice(), name.as_slice()) {
            let mut rest: Vec<char> = Vec::new();
            let m = t.len();
            let mut k = name.len();
            while k < m
                invariant
                    name@.len() <= k <= m,
                    m == t@.len(),
                    rest@ == t@.subrange(name@.len() as int, k as int),
                decreases m - k,
            {
                rest.push(t[k]);
                assert(t@.subrange(name@.len() as int, k + 1) =~= t@.subrange(
                    name@.len() as int,
                    k as int,
                ).push(t@[k as int]));
                k = k + 1;
            }
            assert(rest@ =~= t@.skip(name@.len() as int));
            assert(find_cookie(pieces, name@, i as int) == Some(t@.skip(name@.len() as int)));
            return Some(string_from_chars(rest.as_slice()));
        }
    }
    None
}

/// Whether `password` matches the PHC string `phc` under Argon2: the string
/// parses as a password hash and Argon2, run with the algorithm, version,
/// parameters and salt it names, computes the output it records.  False
/// where the string does not parse.
pub uninterp spec fn argon2_verifies(password: Seq<char>, phc: Seq<char>) -> bool;

/// `PasswordHash::new(phc)` followed by `Argon2::default().verify_password`:
/// the result is named by `argon2_verifies`.  Nothing is promised of the
/// memory the hash's parameters ask for.
#[verifier::external_body]
fn argon2_verify(password: &str, phc: &str) -> (r: bool)
    ensures
        r == argon2_verifies(password@, phc@),
{
    match argon2::password_hash::PasswordHash::new(phc) {
        Ok(hash) => argon2::Argon2::default().verify_password(password.as_bytes(), &hash).is_ok(),
        Err(_) => false,
    }
}

/// `verify_password`: an `$argon2…` configuration is checked by Argon2, any
/// other by plain comparison.
pub fn verify_password(input: &str, configured: &str) -> (ok: bool)
    ensures
        !has_prefix(configured@, "$argon2"@) ==> ok == (input@ == configured@),
        has_prefix(configured@, "$argon2"@) ==> ok == argon2_verifies(input@, configured@),
{
    let c = chars_of(configured);
    let prefix = chars_of("$argon2");
    if crate::text::starts_with_chars(c.as_slice(), prefix.as_slice()) {
        return argon2_verify(input, configured);
    }
    str_eq(input, configured)
}

/// `login`'s check of the submitted credentials.
pub fn admin_credentials_valid(
    username: &str,
    password: &str,
    admin_username: &str,
    admin_password: &str,
) -> (ok: bool)
    ensures
        ok ==> username@ == admin_username@,
        username@ == admin_username@ && !has_prefix(admin_password@, "$argon2"@) ==> ok == (
        password@ == admin_password@),
        username@ == admin_username@ && has_prefix(admin_password@, "$argon2"@) ==> ok
            == argon2_verifies(password@, admin_password@),
{
    str_eq(username, admin_username) && verify_password(password, admin_password)
}

/// The cookie that opens an administrator session for twelve hours.
pub fn session_cookie(token: &str) -> (cookie: String)
    ensures
        cookie@ == "admin_session="@ + token@ + "; Path=/; HttpOnly; SameSite=Strict; Max-Age=43200"@,
{
    crate::text::concat3(
        "admin_session=",
        token,
        "; Path=/; HttpOnly; SameSite=Strict; Max-Age=43200",
    )
}

// ---------------------------------------------------------------------------
// Review and status decisions
// ---------------------------------------------------------------------------

/// An administrator's edit of a user's application.
pub struct UpdateAdminUser {
    pub organization: String,
    pub contact_name: String,
    pub contact_method: String,
    pub application_description: String,
    pub tags: Vec<String>,
    pub work_title: String,
    pub audience_size: String,
    pub cooperation_budget: String,
}

/// `update_user`'s edit: organisation, contact name and method are required;
/// the texts are trimmed and the tags normalised as an application's.
pub fn validate_admin_user_update(input: &UpdateAdminUser) -> (r: Result<UpdateAdminUser, AppError>)
    ensures
        (trim_seq(input.organization@).len() == 0 || trim_seq(input.contact_name@).len() == 0
            || trim_seq(input.contact_method@).len() == 0) ==> (r matches Err(e) && is_bad_request(
            e,
            "user required fields are missing"@,
        )),
        !(trim_seq(input.organization@).len() == 0 || trim_seq(input.contact_name@).len() == 0
            || trim_seq(input.contact_method@).len() == 0) ==> (r matches Ok(edit) && {
            &&& edit.organization@ == trim_seq(input.organization@)
            &&& edit.contact_name@ == trim_seq(input.contact_name@)
            &&& edit.contact_method@ == trim_seq(input.contact_method@)
            &&& edit.application_description@ == trim_seq(input.application_description@)
            &&& texts(edit.tags@) == crate::api::normalized_tags(texts(input.tags@))
            &&& edit.work_title@ == trim_seq(input.work_title@)
            &&& edit.audience_size@ == trim_seq(input.audience_size@)
            &&& edit.cooperation_budget@ == trim_seq(input.cooperation_budget@)
        }),
{
    let organization = trim(input.organization.as_str());
    let contact_name = trim(input.contact_name.as_str());
    let contact_method = trim(input.contact_method.as_str());
    if organization.as_str().is_empty() || contact_name.as_str().is_empty()
        || contact_method.as_str().is_empty() {
        return Err(bad_request("user required fields are missing"));
    }
    Ok(
        UpdateAdminUser {
            organization,
            contact_name,
            contact_method,
            application_description: trim(input.application_description.as_str()),
            tags: crate::api::normalize_tags(&input.tags),
            work_title: trim(input.work_title.as_str()),
            audience_size: trim(input.audience_size.as_str()),
            cooperation_budget: trim(input.cooperation_budget.as_str()),
        },
    )
}

/// `notify_user`'s notice: a title and a description, both trimmed and not
/// blank.
pub fn notification_content(title: &str, description: &str) -> (r: Result<(String, String), AppError>)
    ensures
        (trim_seq(title@).len() == 0 || trim_seq(description@).len() == 0) ==> (r matches Err(e)
            && is_bad_request(e, "notification content is required"@)),
        !(trim_seq(title@).len() == 0 || trim_seq(description@).len() == 0) ==> (r matches Ok(n)
            && n.0@ == trim_seq(title@) && n.1@ == trim_seq(description@)),
{
    let t = trim(title);
    let d = trim(description);
    if t.as_str().is_empty() || d.as_str().is_empty() {
        return Err(bad_request("notification content is required"));
    }
    Ok((t, d))
}

/// `review_user`'s status rule: a review approves or rejects.
pub fn validate_review_status(status: &str) -> (r: Result<(), AppError>)
    ensures
        (status@ == "approved"@ || status@ == "rejected"@) ==> r is Ok,
        !(status@ == "approved"@ || status@ == "rejected"@) ==> (r matches Err(e)
            && is_bad_request(e, "invalid review status"@)),
{
    if !str_eq(status, "approved") && !str_eq(status, "rejected") {
        return Err(bad_request("invalid review status"));
    }
    Ok(())
}

/// The note stored with an onboarding decision: the administrator's own, or
/// for a rejection without one a standard request for more material.
pub fn review_note_or_default(status: &str, note: Option<String>) -> (r: String)
    ensures
        note matches Some(n) ==> r@ == n@,
        note is None && status@ == "rejected"@ ==> r@
            == "资料未通过，请补充真实身份、作品或服务案例后重新提交。"@,
        note is None && status@ != "rejected"@ ==> r@.len() == 0,
{
    match note {
        Some(n) => n,
        None => if str_eq(status, "rejected") {
            owned("资料未通过，请补充真实身份、作品或服务案例后重新提交。")
        } else {
            String::new()
        },
    }
}

/// The public profile an approved application becomes.
pub struct ApprovedProfile {
    /// The first character of the name, or `星`.
    pub avatar: String,
    pub identity: String,
    pub result_text: String,
}

/// The profile fields of an approved application.
pub open spec fn approved_profile_spec(
    role: Seq<char>,
    entity_name: Seq<char>,
    cooperation_budget: Seq<char>,
    audience_size: Seq<char>,
) -> (Seq<char>, Seq<char>, Seq<char>) {
    (
        if entity_name.len() > 0 {
            seq![entity_name[0]]
        } else {
            seq!['星']
        },
        if role == "provider"@ {
            "已审核推广服务方"@
        } else {
            "已审核内容创作者"@
        },
        if role == "provider"@ {
            if cooperation_budget.len() == 0 {
                "可承接推广合作"@
            } else {
                "合作预算 "@ + cooperation_budget
            }
        } else if audience_size.len() == 0 {
            "寻找作品推广合作"@
        } else {
            "受众规模 "@ + audience_size
        },
    )
}

/// `review_user`'s public profile for an approved application.
pub fn approved_profile(
    role: &str,
    entity_name: &str,
    cooperation_budget: &str,
    audience_size: &str,
) -> (p: ApprovedProfile)
    ensures
        (p.avatar@, p.identity@, p.result_text@) == approved_profile_spec(
            role@,
            entity_name@,
            cooperation_budget@,
            audience_size@,
        ),
{
    let name = chars_of(entity_name);
    let mut avatar = String::new();
    if name.len() > 0 {
        push_char(&mut avatar, name[0]);
    } else {
        push_char(&mut avatar, '星');
    }
    let provider = str_eq(role, "provider");
    let identity = if provider {
        owned("已审核推广服务方")
    } else {
        owned("已审核内容创作者")
    };
    let result_text = if provider {
        if cooperation_budget.is_empty() {
            owned("可承接推广合作")
        } else {
            concat2("合作预算 ", cooperation_budget)
        }
    } else if audience_size.is_empty() {
        owned("寻找作品推广合作")
    } else {
        concat2("受众规模 ", audience_size)
    };
    ApprovedProfile { avatar, identity, result_text }
}

/// The notice a reviewed user receives.
pub fn review_notification(status: &str, review_note: &str) -> (r: (String, String))
    ensures
        status@ == "approved"@ ==> r.0@ == "入驻审核通过"@ && r.1@
            == "你的主页已公开，可以开始真实合作。"@,
        status@ != "approved"@ ==> r.0@ == "入驻资料需补充"@ && r.1@ == review_note@,
{
    if str_eq(status, "approved") {
        (owned("入驻审核通过"), owned("你的主页已公开，可以开始真实合作。"))
    } else {
        (owned("入驻资料需补充"), owned(review_note))
    }
}

/// What an onboarding review does to the user's records.
pub struct ReviewDecision {
    /// The user becomes verified.
    pub approved: bool,
    /// The note stored with the decision.
    pub review_note: String,
    /// The public profile to publish; none where the application is refused.
    pub profile: Option<ApprovedProfile>,
    /// The creator's work is published as a song.
    pub publish_song: bool,
    pub notice_title: String,
    pub notice_body: String,
}

/// `review_user`'s decision for a valid review status and the stored
/// application's role, name, budget and audience.
pub fn review_decision(
    status: &str,
    note: Option<String>,
    role: &str,
    entity_name: &str,
    cooperation_budget: &str,
    audience_size: &str,
) -> (d: ReviewDecision)
    ensures
        d.approved == (status@ == "approved"@),
        note matches Some(n) ==> d.review_note@ == n@,
        note is None && status@ == "rejected"@ ==> d.review_note@
            == "资料未通过，请补充真实身份、作品或服务案例后重新提交。"@,
        note is None && status@ != "rejected"@ ==> d.review_note@.len() == 0,
        d.approved ==> (d.profile matches Some(p) && (p.avatar@, p.identity@, p.result_text@)
            == approved_profile_spec(role@, entity_name@, cooperation_budget@, audience_size@)),
        !d.approved ==> d.profile is None,
        d.publish_song == (d.approved && role@ == "client"@),
        d.approved ==> d.notice_title@ == "入驻审核通过"@ && d.notice_body@
            == "你的主页已公开，可以开始真实合作。"@,
        !d.approved ==> d.notice_title@ == "入驻资料需补充"@ && d.notice_body@ == d.review_note@,
{
    let approved = str_eq(status, "approved");
    let review_note = review_note_or_default(status, note);
    let (notice_title, notice_body) = review_notification(status, review_note.as_str());
    let profile = if approved {
        Some(approved_profile(role, entity_name, cooperation_budget, audience_size))
    } else {
        None
    };
    ReviewDecision {
        approved,
        review_note,
        profile,
        publish_song: approved && str_eq(role, "client"),
        notice_title,
        notice_body,
    }
}

/// `update_match`'s decision: the status must be known; the creator is told
/// what happened.
pub open spec fn match_notice_spec(status: Seq<char>) -> Option<(Seq<char>, Seq<char>)> {
    if status == "open"@ {
        Some(("推广需求已重新开放"@, "运营团队已重新开放你的推广需求。"@))
    } else if status == "following"@ {
        Some(("推广需求进入跟进"@, "运营团队已开始跟进你的推广需求。"@))
    } else if status == "closed"@ {
        Some(("推广需求已关闭"@, "该推广需求已由运营团队关闭。"@))
    } else if status == "completed"@ {
        Some(("推广需求已完成"@, "该推广需求已完成匹配，可继续联系推荐推广方。"@))
    } else {
        None
    }
}

/// A demand status set by the operators: the creator's notice, and whether
/// the pending quotes are turned down.
pub struct MatchStatusChange {
    pub title: String,
    pub description: String,
    pub reject_pending: bool,
}

/// `update_match`'s decision; an unknown status is refused, and closing a
/// demand turns down its pending quotes.
pub fn match_status_change(status: &str) -> (r: Result<MatchStatusChange, AppError>)
    ensures
        match match_notice_spec(status@) {
            Some(n) => (r matches Ok(c) && c.title@ == n.0 && c.description@ == n.1
                && c.reject_pending == (status@ == "closed"@)),
            None => (r matches Err(e) && is_bad_request(e, "invalid match status"@)),
        },
{
    let (title, description) = if str_eq(status, "open") {
        (owned("推广需求已重新开放"), owned("运营团队已重新开放你的推广需求。"))
    } else if str_eq(status, "following") {
        (owned("推广需求进入跟进"), owned("运营团队已开始跟进你的推广需求。"))
    } else if str_eq(status, "closed") {
        (owned("推广需求已关闭"), owned("该推广需求已由运营团队关闭。"))
    } else if str_eq(status, "completed") {
        (owned("推广需求已完成"), owned("该推广需求已完成匹配，可继续联系推荐推广方。"))
    } else {
        return Err(bad_request("invalid match status"));
    };
    Ok(MatchStatusChange { title, description, reject_pending: str_eq(status, "closed") })
}

/// `update_settlement`'s status rule: a settlement is completed or rejected.
pub fn validate_settlement_status(status: &str) -> (r: Result<(), AppError>)
    ensures
        (status@ == "completed"@ || status@ == "rejected"@) ==> r is Ok,
        !(status@ == "completed"@ || status@ == "rejected"@) ==> (r matches Err(e)
            && is_bad_request(e, "status must be completed or rejected"@)),
{
    if !str_eq(status, "completed") && !str_eq(status, "rejected") {
        return Err(bad_request("status must be completed or rejected"));
    }
    Ok(())
}

/// `update_settlement`'s decision on a stored settlement: only a pending
/// withdrawal (a negative amount) is processed; `Ok(true)` where the
/// rejection refunds the wallet.
pub fn settlement_processing(current_status: &str, amount: i64, new_status: &str) -> (r: Result<
    bool,
    AppError,
>)
    ensures
        current_status@ != "pending"@ ==> (r matches Err(e) && is_bad_request(
            e,
            "settlement is already processed"@,
        )),
        current_status@ == "pending"@ && amount >= 0 ==> (r matches Err(e) && is_bad_request(
            e,
            "only withdrawal settlements can be processed"@,
        )),
        current_status@ == "pending"@ && amount < 0 ==> (r matches Ok(refund) && refund == (
        new_status@ == "rejected"@)),
{
    if !str_eq(current_status, "pending") {
        return Err(bad_request("settlement is already processed"));
    }
    if amount >= 0 {
        return Err(bad_request("only withdrawal settlements can be processed"));
    }
    Ok(str_eq(new_status, "rejected"))
}

/// `create_song`/`update_song`'s rule: a song has a name and an artist.
pub fn validate_song(input: &SongInput) -> (r: Result<(), AppError>)
    ensures
        refused_as(r, first_error(required_error(input.name@, "name"@), required_error(input.artist@, "artist"@))),
{
    validate_required(input.name.as_str(), "name")?;
    validate_required(input.artist.as_str(), "artist")?;
    Ok(())
}

/// `update_target_type`'s rule: the key of a target type never changes.
pub fn check_target_type_key(path_key: &str, input: &TargetTypeInput) -> (r: Result<(), AppError>)
    ensures
        path_key@ == input.key@ ==> r is Ok,
        path_key@ != input.key@ ==> (r matches Err(e) && is_bad_request(
            e,
            "target type key cannot be changed"@,
        )),
{
    if !str_eq(path_key, input.key.as_str()) {
        return Err(bad_request("target type key cannot be changed"));
    }
    Ok(())
}

/// `update_budget_option`'s rule: the id of a budget bracket never changes.
pub fn check_budget_option_id(path_id: &str, input: &BudgetOptionInput) -> (r: Result<(), AppError>)
    ensures
        path_id@ == input.id@ ==> r is Ok,
        path_id@ != input.id@ ==> (r matches Err(e) && is_bad_request(
            e,
            "budget option id cannot be changed"@,
        )),
{
    if !str_eq(path_id, input.id.as_str()) {
        return Err(bad_request("budget option id cannot be changed"));
    }
    Ok(())
}

/// The `LIKE` pattern that finds a target key in a demand's stored key list.
pub fn target_key_pattern(key: &str) -> (p: String)
    ensures
        p@ == "%\""@ + key@ + "\"%"@,
{
    crate::text::concat3("%\"", key, "\"%")
}

/// `delete_target_type`/`delete_budget_option`'s rule: what a demand still
/// refers to is not deleted.
pub fn refuse_if_referenced(in_use: bool, entity: &str) -> (r: Result<(), AppError>)
    ensures
        !in_use ==> r is Ok,
        in_use ==> (r matches Err(e) && is_bad_request(e, entity@ + " is referenced by match requests"@)),
{
    if in_use {
        return Err(AppError::BadRequest(concat2(entity, " is referenced by match requests")));
    }
    Ok(())
}

/// How an export prints a column of a row.
pub enum CellKind {
    /// The text as stored.
    Text,
    /// An integer in decimal.
    Number,
    /// A stored flag, `是` for 1 and `否` otherwise.
    Flag,
}

/// The columns an export reads from each row, in order; the header line
/// names them.
pub open spec fn export_columns_spec(kind: Seq<char>) -> Seq<(Seq<char>, CellKind)> {
    if kind == "users"@ {
        seq![("id"@, CellKind::Text), ("display_name"@, CellKind::Text), ("organization"@, CellKind::Text),
            ("role"@, CellKind::Text), ("verified"@, CellKind::Flag), ("onboarding_status"@, CellKind::Text),
            ("created_at"@, CellKind::Text)]
    } else if kind == "partners"@ {
        seq![("id"@, CellKind::Text), ("partner_type"@, CellKind::Text), ("name"@, CellKind::Text),
            ("identity"@, CellKind::Text), ("description"@, CellKind::Text), ("tags"@, CellKind::Text),
            ("match_score"@, CellKind::Number), ("result_text"@, CellKind::Text), ("active"@, CellKind::Flag),
            ("created_at"@, CellKind::Text)]
    } else if kind == "songs"@ {
        seq![("id"@, CellKind::Text), ("name"@, CellKind::Text), ("artist"@, CellKind::Text),
            ("cover_class"@, CellKind::Text), ("active"@, CellKind::Flag), ("created_at"@, CellKind::Text)]
    } else if kind == "plans"@ {
        seq![("id"@, CellKind::Text), ("title"@, CellKind::Text), ("plan_type"@, CellKind::Text),
            ("description"@, CellKind::Text), ("tags"@, CellKind::Text), ("budget_amount"@, CellKind::Number),
            ("score"@, CellKind::Number), ("active"@, CellKind::Flag), ("created_at"@, CellKind::Text)]
    } else if kind == "matches"@ {
        seq![("id"@, CellKind::Text), ("user_name"@, CellKind::Text), ("song_name"@, CellKind::Text),
            ("budget_label"@, CellKind::Text), ("goal"@, CellKind::Text), ("cycle"@, CellKind::Text),
            ("status"@, CellKind::Text), ("target_keys"@, CellKind::Text), ("created_at"@, CellKind::Text)]
    } else if kind == "settlements"@ {
        seq![("id"@, CellKind::Text), ("user_name"@, CellKind::Text), ("title"@, CellKind::Text),
            ("amount"@, CellKind::Number), ("status"@, CellKind::Text), ("created_at"@, CellKind::Text)]
    } else if kind == "demands"@ {
        seq![("id"@, CellKind::Text), ("creator_name"@, CellKind::Text), ("song_name"@, CellKind::Text),
            ("budget_label"@, CellKind::Text), ("goal"@, CellKind::Text), ("cycle"@, CellKind::Text),
            ("status"@, CellKind::Text), ("target_keys"@, CellKind::Text), ("proposal_count"@, CellKind::Number),
            ("created_at"@, CellKind::Text)]
    } else {
        Seq::empty()
    }
}

/// The query of an export.
pub open spec fn export_query_spec(kind: Seq<char>) -> Seq<char> {
    if kind == "users"@ {
        USERS_EXPORT@
    } else if kind == "partners"@ {
        PARTNERS_EXPORT@
    } else if kind == "songs"@ {
        SONGS_EXPORT@
    } else if kind == "plans"@ {
        PLANS_EXPORT@
    } else if kind == "matches"@ {
        MATCHES_EXPORT@
    } else if kind == "settlements"@ {
        SETTLEMENTS_EXPORT@
    } else {
        DEMANDS_EXPORT@
    }
}

/// Users, newest first.
pub const USERS_EXPORT: &'static str = "SELECT id, display_name, organization, role, verified, onboarding_status, created_at
         FROM users ORDER BY created_at DESC";

/// Partners, newest first.
pub const PARTNERS_EXPORT: &'static str = "SELECT id, partner_type, name, identity, description, tags, match_score, result_text, active, created_at
         FROM partners ORDER BY created_at DESC";

/// Songs, newest first.
pub const SONGS_EXPORT: &'static str = "SELECT id, name, artist, cover_class, active, created_at FROM songs ORDER BY created_at DESC";

/// Plans, newest first.
pub const PLANS_EXPORT: &'static str = "SELECT id, title, plan_type, description, tags, budget_amount, score, active, created_at FROM plans ORDER BY created_at DESC";

/// Promotion demands with their creator, work and budget, newest first.
pub const MATCHES_EXPORT: &'static str = "SELECT m.id, u.organization AS user_name, s.name AS song_name, b.label AS budget_label,
         m.goal, m.cycle, m.status, m.target_keys, m.created_at
         FROM match_requests m
         JOIN users u ON u.id = m.user_id
         JOIN songs s ON s.id = m.song_id
         JOIN budget_options b ON b.id = m.budget_id
         ORDER BY m.created_at DESC";

/// Settlements with their user, newest first.
pub const SETTLEMENTS_EXPORT: &'static str = "SELECT s.id, u.organization AS user_name, s.title, s.amount, s.status, s.created_at
         FROM settlements s JOIN users u ON u.id = s.user_id
         ORDER BY s.created_at DESC";

/// Demands with their count of live quotes, newest first.
pub const DEMANDS_EXPORT: &'static str = "SELECT m.id, u.organization AS creator_name, s.name AS song_name, b.label AS budget_label,
         m.goal, m.cycle, m.status, m.target_keys,
         (SELECT COUNT(*) FROM demand_proposals dp WHERE dp.match_request_id = m.id AND dp.status != 'withdrawn') AS proposal_count,
         m.created_at
         FROM match_requests m
         JOIN users u ON u.id = m.user_id
         JOIN songs s ON s.id = m.song_id
         JOIN budget_options b ON b.id = m.budget_id
         ORDER BY m.created_at DESC";

/// An administrator export: its file name, query and columns.
pub struct ExportLayout {
    pub file_name: String,
    pub query: &'static str,
    pub columns: Vec<(&'static str, CellKind)>,
}

/// The view of an export's columns.
pub open spec fn columns_view(columns: Seq<(&'static str, CellKind)>) -> Seq<(Seq<char>, CellKind)> {
    columns.map_values(|c: (&'static str, CellKind)| (c.0@, c.1))
}

fn column_list(names: &[&'static str], kinds: Vec<CellKind>) -> (columns: Vec<(&'static str, CellKind)>)
    requires
        names@.len() == kinds@.len(),
    ensures
        columns@.len() == names@.len(),
        forall|i: int| 0 <= i < names@.len() ==> (#[trigger] columns@[i]).0 == names@[i]
            && columns@[i].1 == kinds@[i],
{
    let mut columns: Vec<(&'static str, CellKind)> = Vec::new();
    let mut kinds = kinds;
    let ghost all = kinds@;
    let n = names.len();
    let mut rest: Vec<CellKind> = Vec::new();
    while kinds.len() > 0
        invariant
            kinds@ + rest@.reverse() == all,
        decreases kinds@.len(),
    {
        let k = kinds.pop().unwrap();
        let ghost before = rest@;
        rest.push(k);
        assert(rest@.reverse() =~= seq![k] + before.reverse());
        assert(kinds@.push(k) + before.reverse() =~= kinds@ + (seq![k] + before.reverse()));
    }
    assert(rest@.reverse() =~= all);
    for i in 0..n
        invariant
            n == names@.len(),
            n == all.len(),
            rest@.len() == n - i,
            forall|j: int| 0 <= j < n - i ==> rest@[j] == all[n - 1 - j],
            columns@.len() == i,
            forall|j: int| 0 <= j < i ==> (#[trigger] columns@[j]).0 == names@[j]
                && columns@[j].1 == all[j],
    {
        let k = rest.pop().unwrap();
        columns.push((names[i], k));
    }
    columns
}

/// `export_csv`'s layout for an export type; an unknown type is refused.
pub fn export_layout(kind: &str) -> (r: Result<ExportLayout, AppError>)
    ensures
        match export_name_spec(kind@) {
            Some(n) => (r matches Ok(l) && l.file_name@ == n && l.query@ == export_query_spec(kind@)
                && columns_view(l.columns@) == export_columns_spec(kind@)),
            None => (r matches Err(e) && is_bad_request(e, "unknown export type"@)),
        },
{
    let file_name = export_file_name(kind)?;
    let (query, names, kinds): (&'static str, &[&'static str], Vec<CellKind>) = if str_eq(kind, "users") {
        (USERS_EXPORT, &["id", "display_name", "organization", "role", "verified", "onboarding_status", "created_at"],
            vec![CellKind::Text, CellKind::Text, CellKind::Text, CellKind::Text, CellKind::Flag, CellKind::Text, CellKind::Text])
    } else if str_eq(kind, "partners") {
        (PARTNERS_EXPORT, &["id", "partner_type", "name", "identity", "description", "tags", "match_score", "result_text", "active", "created_at"],
            vec![CellKind::Text, CellKind::Text, CellKind::Text, CellKind::Text, CellKind::Text, CellKind::Text, CellKind::Number, CellKind::Text, CellKind::Flag, CellKind::Text])
    } else if str_eq(kind, "songs") {
        (SONGS_EXPORT, &["id", "name", "artist", "cover_class", "active", "created_at"],
            vec![CellKind::Text, CellKind::Text, CellKind::Text, CellKind::Text, CellKind::Flag, CellKind::Text])
    } else if str_eq(kind, "plans") {
        (PLANS_EXPORT, &["id", "title", "plan_type", "description", "tags", "budget_amount", "score", "active", "created_at"],
            vec![CellKind::Text, CellKind::Text, CellKind::Text, CellKind::Text, CellKind::Text, CellKind::Number, CellKind::Number, CellKind::Flag, CellKind::Text])
    } else if str_eq(kind, "matches") {
        (MATCHES_EXPORT, &["id", "user_name", "song_name", "budget_label", "goal", "cycle", "status", "target_keys", "created_at"],
            vec![CellKind::Text, CellKind::Text, CellKind::Text, CellKind::Text, CellKind::Text, CellKind::Text, CellKind::Text, CellKind::Text, CellKind::Text])
    } else if str_eq(kind, "settlements") {
        (SETTLEMENTS_EXPORT, &["id", "user_name", "title", "amount", "status", "created_at"],
            vec![CellKind::Text, CellKind::Text, CellKind::Text, CellKind::Number, CellKind::Text, CellKind::Text])
    } else {
        (DEMANDS_EXPORT, &["id", "creator_name", "song_name", "budget_label", "goal", "cycle", "status", "target_keys", "proposal_count", "created_at"],
            vec![CellKind::Text, CellKind::Text, CellKind::Text, CellKind::Text, CellKind::Text, CellKind::Text, CellKind::Text, CellKind::Text, CellKind::Number, CellKind::Text])
    };
    let columns = column_list(names, kinds);
    Ok(ExportLayout { file_name, query, columns })
}

/// The file name of an administrator export, or `None` for an unknown type.
pub open spec fn export_name_spec(kind: Seq<char>) -> Option<Seq<char>> {
    if kind == "users"@ {
        Some("users.csv"@)
    } else if kind == "partners"@ {
        Some("partners.csv"@)
    } else if kind == "songs"@ {
        Some("songs.csv"@)
    } else if kind == "plans"@ {
        Some("plans.csv"@)
    } else if kind == "matches"@ {
        Some("matches.csv"@)
    } else if kind == "settlements"@ {
        Some("settlements.csv"@)
    } else if kind == "demands"@ {
        Some("demands.csv"@)
    } else {
        None
    }
}

/// `export_csv`'s file name; an unknown export type is refused.
pub fn export_file_name(kind: &str) -> (r: Result<String, AppError>)
    ensures
        match export_name_spec(kind@) {
            Some(n) => (r matches Ok(f) && f@ == n),
            None => (r matches Err(e) && is_bad_request(e, "unknown export type"@)),
        },
{
    if str_eq(kind, "users") {
        Ok(owned("users.csv"))
    } else if str_eq(kind, "partners") {
        Ok(owned("partners.csv"))
    } else if str_eq(kind, "songs") {
        Ok(owned("songs.csv"))
    } else if str_eq(kind, "plans") {
        Ok(owned("plans.csv"))
    } else if str_eq(kind, "matches") {
        Ok(owned("matches.csv"))
    } else if str_eq(kind, "settlements") {
        Ok(owned("settlements.csv"))
    } else if str_eq(kind, "demands") {
        Ok(owned("demands.csv"))
    } else {
        Err(bad_request("unknown export type"))
    }
}

} // verus!
