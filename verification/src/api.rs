//! Rules of the user-facing API: roles, onboarding, demands, wallet and the
//! small texts the mini program shows.
use vstd::prelude::*;
use crate::agent::texts;
use crate::analytics::magnitude;
use crate::error::{AppError, is_bad_request, bad_request};
use crate::models::{CreateMatch, Partner, Plan, SubmitOnboarding, UserRow};
use crate::text::{
    chars_of, concat2, has_prefix, nat_text, owned, push_nat, str_eq, string_from_chars, trim,
    trim_seq,
};

verus! {

// ---------------------------------------------------------------------------
// Access rules
// ---------------------------------------------------------------------------

/// `require_approved`: only users whose onboarding was approved may act.
pub fn require_approved(user: &UserRow) -> (r: Result<(), AppError>)
    ensures
        user.onboarding_status@ == "approved"@ ==> r is Ok,
        user.onboarding_status@ != "approved"@ ==> (r matches Err(e) && is_bad_request(
            e,
            "onboarding approval required"@,
        )),
{
    if !str_eq(user.onboarding_status.as_str(), "approved") {
        return Err(bad_request("onboarding approval required"));
    }
    Ok(())
}

/// `require_creator`: only creators (`client`) may act.
pub fn require_creator(user: &UserRow) -> (r: Result<(), AppError>)
    ensures
        user.role@ == "client"@ ==> r is Ok,
        user.role@ != "client"@ ==> (r matches Err(e) && is_bad_request(e, "creator role required"@)),
{
    if !str_eq(user.role.as_str(), "client") {
        return Err(bad_request("creator role required"));
    }
    Ok(())
}

/// The role a user works with: providers meet clients and clients meet
/// providers.
pub fn opposite_role(role: &str) -> (other: &'static str)
    ensures
        other@ == (if role@ == "provider"@ {
            "client"@
        } else {
            "provider"@
        }),
{
    if str_eq(role, "provider") {
        "client"
    } else {
        "provider"
    }
}

/// `create_user_session`'s role rule: only `provider` and `client` exist.
pub fn validate_session_role(role: &str) -> (r: Result<(), AppError>)
    ensures
        (role@ == "provider"@ || role@ == "client"@) ==> r is Ok,
        !(role@ == "provider"@ || role@ == "client"@) ==> (r matches Err(e) && is_bad_request(
            e,
            "role must be provider or client"@,
        )),
{
    if !str_eq(role, "provider") && !str_eq(role, "client") {
        return Err(bad_request("role must be provider or client"));
    }
    Ok(())
}

/// What a role change does.
pub enum RoleChange {
    /// The requested role is the current one: nothing changes.
    Unchanged,
    /// The user takes the new role and starts onboarding again.
    Reset,
}

/// `update_role`'s decision: a known role, the same role, or a new role while
/// the application is still a draft.
pub fn role_change(requested: &str, user: &UserRow) -> (r: Result<RoleChange, AppError>)
    ensures
        !(requested@ == "provider"@ || requested@ == "client"@) ==> (r matches Err(e)
            && is_bad_request(e, "role must be provider or client"@)),
        (requested@ == "provider"@ || requested@ == "client"@) && requested@ == user.role@ ==> (
        r matches Ok(c) && c is Unchanged),
        (requested@ == "provider"@ || requested@ == "client"@) && requested@ != user.role@
            && user.onboarding_status@ != "draft"@ ==> (r matches Err(e) && is_bad_request(
            e,
            "submitted role cannot be changed"@,
        )),
        (requested@ == "provider"@ || requested@ == "client"@) && requested@ != user.role@
            && user.onboarding_status@ == "draft"@ ==> (r matches Ok(c) && c is Reset),
{
    validate_session_role(requested)?;
    if str_eq(requested, user.role.as_str()) {
        return Ok(RoleChange::Unchanged);
    }
    if !str_eq(user.onboarding_status.as_str(), "draft") {
        return Err(bad_request("submitted role cannot be changed"));
    }
    Ok(RoleChange::Reset)
}

// ---------------------------------------------------------------------------
// Onboarding
// ---------------------------------------------------------------------------

/// The trimmed, non-blank tags, in order.
pub open spec fn kept_tags(tags: Seq<Seq<char>>) -> Seq<Seq<char>>
    decreases tags.len(),
{
    if tags.len() == 0 {
        Seq::empty()
    } else {
        let before = kept_tags(tags.drop_last());
        let t = trim_seq(tags.last());
        if t.len() > 0 {
            before.push(t)
        } else {
            before
        }
    }
}

/// At most eight trimmed, non-blank tags.
pub open spec fn normalized_tags(tags: Seq<Seq<char>>) -> Seq<Seq<char>> {
    let kept = kept_tags(tags);
    if kept.len() > 8 {
        kept.take(8)
    } else {
        kept
    }
}

/// The tags as the profile stores them: trimmed, blanks dropped, at most eight.
pub fn normalize_tags(tags: &Vec<String>) -> (r: Vec<String>)
    ensures
        texts(r@) == normalized_tags(texts(tags@)),
{
    let ghost all = texts(tags@);
    let mut kept: Vec<String> = Vec::new();
    let n = tags.len();
    for i in 0..n
        invariant
            n == tags@.len(),
            all == texts(tags@),
            texts(kept@) == kept_tags(all.take(i as int)),
    {
        assert(all.take(i + 1).drop_last() =~= all.take(i as int));
        assert(all.take(i + 1).last() == tags@[i as int]@);
        let t = trim(tags[i].as_str());
        if !t.as_str().is_empty() {
            let ghost before = kept@;
            kept.push(t);
            assert(texts(kept@) =~= texts(before).push(kept@.last()@));
        }
    }
    assert(all.take(n as int) =~= all);
    if kept.len() <= 8 {
        return kept;
    }
    let mut r: Vec<String> = Vec::new();
    for i in 0..8
        invariant
            kept@.len() > 8,
            texts(r@) == texts(kept@).take(i as int),
    {
        let ghost before = r@;
        r.push(kept[i].clone());
        assert(texts(r@) =~= texts(before).push(kept@[i as int]@));
        assert(texts(kept@).take(i + 1) =~= texts(kept@).take(i as int).push(kept@[i as int]@));
    }
    r
}

/// An onboarding application after trimming.
pub struct OnboardingForm {
    pub entity_name: String,
    pub contact_name: String,
    pub contact_method: String,
    pub description: String,
    pub tags: Vec<String>,
    pub work_title: String,
    pub work_url: String,
    pub audience_size: String,
    pub cooperation_budget: String,
}

/// An optional text, trimmed, empty where absent.
pub open spec fn trimmed_or_empty(v: Option<String>) -> Seq<char> {
    match v {
        Some(s) => trim_seq(s@),
        None => Seq::empty(),
    }
}

fn trim_optional(v: &Option<String>) -> (r: String)
    ensures
        r@ == trimmed_or_empty(*v),
{
    match v {
        Some(s) => trim(s.as_str()),
        None => String::new(),
    }
}

/// The refusal for an onboarding application, if any.
pub open spec fn onboarding_error(input: SubmitOnboarding, role: Seq<char>) -> Option<Seq<char>> {
    if trim_seq(input.entity_name@).len() == 0 || trim_seq(input.contact_name@).len() == 0
        || trim_seq(input.contact_method@).len() == 0 || trim_seq(input.description@).len() == 0 {
        Some("onboarding required fields are missing"@)
    } else if role == "client"@ && (trimmed_or_empty(input.work_title).len() == 0
        || trimmed_or_empty(input.work_url).len() == 0) {
        Some("creator work information is required"@)
    } else if normalized_tags(texts(input.tags@)).len() == 0 {
        Some("at least one specialty is required"@)
    } else {
        None
    }
}

/// `submit_onboarding`'s rules: required fields, a creator's work, and at
/// least one specialty; the accepted form is trimmed.
pub fn validate_onboarding(input: &SubmitOnboarding, role: &str) -> (r: Result<
    OnboardingForm,
    AppError,
>)
    ensures
        onboarding_error(*input, role@) is None ==> (r matches Ok(f) && {
            &&& f.entity_name@ == trim_seq(input.entity_name@)
            &&& f.contact_name@ == trim_seq(input.contact_name@)
            &&& f.contact_method@ == trim_seq(input.contact_method@)
            &&& f.description@ == trim_seq(input.description@)
            &&& texts(f.tags@) == normalized_tags(texts(input.tags@))
            &&& f.work_title@ == trimmed_or_empty(input.work_title)
            &&& f.work_url@ == trimmed_or_empty(input.work_url)
            &&& f.audience_size@ == trimmed_or_empty(input.audience_size)
            &&& f.cooperation_budget@ == trimmed_or_empty(input.cooperation_budget)
        }),
        onboarding_error(*input, role@) matches Some(m) ==> (r matches Err(e) && is_bad_request(
            e,
            m,
        )),
{
    let entity_name = trim(input.entity_name.as_str());
    let contact_name = trim(input.contact_name.as_str());
    let contact_method = trim(input.contact_method.as_str());
    let description = trim(input.description.as_str());
    let work_title = trim_optional(&input.work_title);
    let work_url = trim_optional(&input.work_url);
    let audience_size = trim_optional(&input.audience_size);
    let cooperation_budget = trim_optional(&input.cooperation_budget);
    if entity_name.as_str().is_empty() || contact_name.as_str().is_empty() || contact_method.as_str().is_empty()
        || description.as_str().is_empty() {
        return Err(bad_request("onboarding required fields are missing"));
    }
    if str_eq(role, "client") && (work_title.as_str().is_empty() || work_url.as_str().is_empty()) {
        return Err(bad_request("creator work information is required"));
    }
    let tags = normalize_tags(&input.tags);
    if tags.len() == 0 {
        return Err(bad_request("at least one specialty is required"));
    }
    Ok(
        OnboardingForm {
            entity_name,
            contact_name,
            contact_method,
            description,
            tags,
            work_title,
            work_url,
            audience_size,
            cooperation_budget,
        },
    )
}

// ---------------------------------------------------------------------------
// Demands and wallet
// ---------------------------------------------------------------------------

/// The campaign cycles a demand may ask for.
pub open spec fn valid_cycle(cycle: Seq<char>) -> bool {
    cycle == "7 天"@ || cycle == "14 天"@ || cycle == "30 天"@ || cycle == "60 天"@
}

/// The refusal for a promotion demand, if any.
pub open spec fn match_error(input: CreateMatch) -> Option<Seq<char>> {
    let goal = trim_seq(input.goal@);
    if input.target_keys@.len() == 0 {
        Some("at least one target must be selected"@)
    } else if goal.len() < 8 || goal.len() > 300 {
        Some("goal must contain between 8 and 300 characters"@)
    } else if !valid_cycle(input.cycle@) {
        Some("invalid campaign cycle"@)
    } else {
        None
    }
}

/// `create_match`'s input rules; the accepted goal is trimmed.
pub fn validate_match(input: &CreateMatch) -> (r: Result<String, AppError>)
    ensures
        match_error(*input) is None ==> (r matches Ok(goal) && goal@ == trim_seq(input.goal@)),
        match_error(*input) matches Some(m) ==> (r matches Err(e) && is_bad_request(e, m)),
{
    if input.target_keys.len() == 0 {
        return Err(bad_request("at least one target must be selected"));
    }
    let goal = trim(input.goal.as_str());
    let count = crate::text::char_count(goal.as_str());
    if count < 8 || count > 300 {
        return Err(bad_request("goal must contain between 8 and 300 characters"));
    }
    let cycle = input.cycle.as_str();
    if !(str_eq(cycle, "7 天") || str_eq(cycle, "14 天") || str_eq(cycle, "30 天") || str_eq(
        cycle,
        "60 天",
    )) {
        return Err(bad_request("invalid campaign cycle"));
    }
    Ok(goal)
}

/// A withdrawal of `amount` from `balance`: the refusal, or the balance left.
pub open spec fn withdrawal_spec(amount: int, balance: int) -> Result<int, Seq<char>> {
    if amount <= 0 {
        Err("amount must be positive"@)
    } else if balance < amount {
        Err("insufficient wallet balance"@)
    } else {
        Ok(balance - amount)
    }
}

/// `withdraw`'s first rule: only a positive amount is withdrawn.
pub fn check_withdrawal_amount(amount: i64) -> (r: Result<(), AppError>)
    ensures
        amount > 0 ==> r is Ok,
        amount <= 0 ==> (r matches Err(e) && is_bad_request(e, "amount must be positive"@)),
{
    if amount <= 0 {
        return Err(bad_request("amount must be positive"));
    }
    Ok(())
}

/// `withdraw`'s decision: the balance left after withdrawing `amount`.
pub fn withdrawal_balance(amount: i64, balance: i64) -> (r: Result<i64, AppError>)
    ensures
        match withdrawal_spec(amount as int, balance as int) {
            Ok(left) => (r matches Ok(v) && v == left),
            Err(m) => (r matches Err(e) && is_bad_request(e, m)),
        },
{
    check_withdrawal_amount(amount)?;
    if balance < amount {
        return Err(bad_request("insufficient wallet balance"));
    }
    Ok(balance - amount)
}

/// The amount a withdrawal's settlement records: the withdrawal, negated.
pub open spec fn withdrawal_record(amount: int) -> int {
    -amount
}

/// The wallet after an operator rejects a pending withdrawal settlement of
/// (negative) `settlement_amount`: the amount is given back.
pub open spec fn refunded_balance(balance: int, settlement_amount: int) -> int {
    balance - settlement_amount
}

/// A withdrawal never overdraws the wallet, and always lowers it.
pub proof fn law_withdrawal_keeps_balance_non_negative(amount: int, balance: int)
    ensures
        withdrawal_spec(amount, balance) matches Ok(left) ==> 0 <= left < balance,
        balance < 0 ==> withdrawal_spec(amount, balance) is Err,
{
}

/// Rejecting a withdrawal restores the wallet to its balance before it.
pub proof fn law_rejected_withdrawal_restores_balance(amount: int, balance: int)
    requires
        withdrawal_spec(amount, balance) is Ok,
    ensures
        refunded_balance(
            withdrawal_spec(amount, balance)->Ok_0,
            withdrawal_record(amount),
        ) == balance,
{
}

/// Normalised tags are at most eight, none blank, none with outer spaces.
pub proof fn law_normalized_tags_are_clean(tags: Seq<Seq<char>>)
    ensures
        normalized_tags(tags).len() <= 8,
        forall|i: int|
            0 <= i < normalized_tags(tags).len() ==> (#[trigger] normalized_tags(tags)[i]).len() > 0
                && exists|j: int| 0 <= j < tags.len() && crate::text::trim_seq(tags[j]) == normalized_tags(tags)[i],
{
    lemma_kept_tags(tags);
}

proof fn lemma_kept_tags(tags: Seq<Seq<char>>)
    ensures
        forall|i: int|
            0 <= i < kept_tags(tags).len() ==> (#[trigger] kept_tags(tags)[i]).len() > 0
                && exists|j: int| 0 <= j < tags.len() && crate::text::trim_seq(tags[j]) == kept_tags(tags)[i],
    decreases tags.len(),
{
    if tags.len() > 0 {
        let init = tags.drop_last();
        lemma_kept_tags(init);
        let k = kept_tags(tags);
        assert forall|i: int| 0 <= i < k.len() implies (#[trigger] k[i]).len() > 0 && exists|j: int|
            0 <= j < tags.len() && crate::text::trim_seq(tags[j]) == k[i] by {
            if i < kept_tags(init).len() {
                let j = choose|j: int| 0 <= j < init.len() && crate::text::trim_seq(init[j]) == kept_tags(init)[i];
                assert(tags[j] == init[j]);
            } else {
                assert(crate::text::trim_seq(tags[tags.len() - 1]) == k[i]);
            }
        }
    }
}

// ---------------------------------------------------------------------------
// Texts
// ---------------------------------------------------------------------------

/// A filter tab.
pub struct FilterOption {
    pub key: String,
    pub label: String,
}

/// `filter`: a filter tab from its key and label.
pub fn filter(key: &str, label: &str) -> (f: FilterOption)
    ensures
        f.key@ == key@,
        f.label@ == label@,
{
    FilterOption { key: owned(key), label: owned(label) }
}

/// `describe_contact_method`: what a partner page says about a contact
/// without revealing it.
pub fn describe_contact_method(contact_method: &str) -> (text: String)
    ensures
        text@ == (if contact_method@.contains('@') {
            "邮箱联系方式已提交平台审核"@
        } else if exists|i: int|
            0 <= i < contact_method@.len() && '0' <= #[trigger] contact_method@[i] <= '9' {
            "手机号或微信联系方式已提交平台审核"@
        } else {
            "联系方式已提交平台审核"@
        }),
{
    let v = chars_of(contact_method);
    if crate::text::has_char(v.as_slice(), '@') {
        return owned("邮箱联系方式已提交平台审核");
    }
    let n = v.len();
    for i in 0..n
        invariant
            n == v@.len(),
            v@ == contact_method@,
            !contact_method@.contains('@'),
            forall|j: int| 0 <= j < i ==> !('0' <= #[trigger] v@[j] <= '9'),
    {
        if '0' <= v[i] && v[i] <= '9' {
            assert('0' <= contact_method@[i as int] <= '9');
            return owned("手机号或微信联系方式已提交平台审核");
        }
    }
    owned("联系方式已提交平台审核")
}

/// Whole yuan of an amount of cents, as `{:.0}` rounds `cents / 100`:
/// to the nearest yuan, a half to the even yuan.
pub open spec fn whole_yuan(a: nat) -> nat {
    let q = a / 100;
    let r = a % 100;
    if r > 50 || (r == 50 && q % 2 == 1) {
        q + 1
    } else {
        q
    }
}

/// `format_money`: `¥` and the amount in whole yuan (`¥-0` for a small
/// negative amount, as the float formatting prints it).
pub fn format_money(cents: i64) -> (s: String)
    ensures
        s@ == "¥"@ + (if cents < 0 {
            seq!['-']
        } else {
            Seq::empty()
        }) + nat_text(whole_yuan(
            (if cents < 0 {
                -(cents as int)
            } else {
                cents as int
            }) as nat,
        )),
{
    let a = magnitude(cents);
    let q = a / 100;
    let r = a % 100;
    let rounded: u64 = if r > 50 || (r == 50 && q % 2 == 1) {
        q + 1
    } else {
        q
    };
    let mut v: Vec<char> = Vec::new();
    if cents < 0 {
        v.push('-');
    }
    push_nat(&mut v, rounded);
    let body = string_from_chars(v.as_slice());
    let s = concat2("¥", body.as_str());
    proof {
        if cents < 0 {
            assert(v@ =~= seq!['-'] + nat_text(rounded as nat));
        } else {
            assert(v@ =~= Seq::<char>::empty() + nat_text(rounded as nat));
        }
        assert("¥"@ + v@ =~= "¥"@ + (if cents < 0 {
            seq!['-']
        } else {
            Seq::empty()
        }) + nat_text(rounded as nat));
    }
    s
}

/// How long ago something happened, for an age of `seconds`.
pub open spec fn relative_label_spec(seconds: int) -> Seq<char> {
    if seconds <= 59 {
        "刚刚"@
    } else if seconds <= 3599 {
        nat_text((seconds / 60) as nat) + "分钟前"@
    } else if seconds <= 86_399 {
        nat_text((seconds / 3600) as nat) + "小时前"@
    } else if seconds <= 172_799 {
        "昨天"@
    } else {
        nat_text((seconds / 86_400) as nat) + "天前"@
    }
}

/// The age label of something `seconds` old.
pub fn relative_label(seconds: i64) -> (s: String)
    ensures
        s@ == relative_label_spec(seconds as int),
{
    if seconds <= 59 {
        owned("刚刚")
    } else if seconds <= 3599 {
        let n = crate::text::uint_to_string((seconds / 60) as u64);
        concat2(n.as_str(), "分钟前")
    } else if seconds <= 86_399 {
        let n = crate::text::uint_to_string((seconds / 3600) as u64);
        concat2(n.as_str(), "小时前")
    } else if seconds <= 172_799 {
        owned("昨天")
    } else {
        let n = crate::text::uint_to_string((seconds / 86_400) as u64);
        concat2(n.as_str(), "天前")
    }
}

/// The seconds since the epoch that chrono reads from a `%Y-%m-%d %H:%M:%S`
/// time in UTC, or `None` where it reads none.
pub uninterp spec fn datetime_seconds(text: Seq<char>) -> Option<int>;

/// Whether `t` is the timestamp of a time chrono can hold: from
/// -262143-01-01 00:00:00 to +262142-12-31 23:59:59 UTC.
pub open spec fn chrono_timestamp(t: int) -> bool {
    -8_334_601_315_200 <= t <= 8_210_266_876_799
}

/// `NaiveDateTime::parse_from_str(value, "%Y-%m-%d %H:%M:%S")`, as seconds
/// since the epoch in UTC.
#[verifier::external_body]
fn parse_datetime_seconds(value: &str) -> (r: Option<i64>)
    ensures
        match r {
            Some(t) => datetime_seconds(value@) == Some(t as int) && chrono_timestamp(t as int),
            None => datetime_seconds(value@) is None,
        },
{
    chrono::NaiveDateTime::parse_from_str(value, "%Y-%m-%d %H:%M:%S").ok().map(
        |t| t.and_utc().timestamp(),
    )
}

/// `Utc::now()` in whole seconds since the epoch.  Of its value only the
/// range is promised: `Utc::now` panics for a clock before the epoch and
/// unwraps a time chrono can hold.
#[verifier::external_body]
pub(crate) fn now_seconds() -> (r: i64)
    ensures
        0 <= r && chrono_timestamp(r as int),
{
    chrono::Utc::now().timestamp()
}

/// `relative_time`: how long ago a stored time was; a text that is no such
/// time is shown as it is.
pub fn relative_time(value: &str) -> (s: String)
    ensures
        datetime_seconds(value@) is None ==> s@ == value@,
        datetime_seconds(value@) is Some ==> exists|age: int|
            age >= -datetime_seconds(value@)->0 && s@ == relative_label_spec(age),
{
    match parse_datetime_seconds(value) {
        None => owned(value),
        Some(t) => {
            let now = now_seconds();
            let age = now - t;
            relative_label(age)
        },
    }
}

/// The onboarding state as the home page titles and explains it.
pub open spec fn onboarding_status_texts(user: UserRow) -> (Seq<char>, Seq<char>) {
    if user.onboarding_status@ == "approved"@ {
        (
            "入驻已通过"@,
            if user.role@ == "provider"@ {
                "现在可以发现创作者项目并发起真实合作。"@
            } else {
                "现在可以发布作品推广需求并匹配已审核推广方。"@
            },
        )
    } else if user.onboarding_status@ == "pending"@ {
        ("入驻资料审核中"@, "平台正在核验身份与合作资料，审核通过前不会公开展示。"@)
    } else if user.onboarding_status@ == "rejected"@ {
        (
            "入驻资料需要补充"@,
            if user.review_note@.len() == 0 {
                "请修改资料后重新提交审核。"@
            } else {
                user.review_note@
            },
        )
    } else {
        ("完成入驻后再开始合作"@, "先提交真实身份与业务资料，审核通过后进入对应工作台。"@)
    }
}

/// The home page's status title and explanation for the user.
pub fn onboarding_status_text(user: &UserRow) -> (r: (String, String))
    ensures
        (r.0@, r.1@) == onboarding_status_texts(*user),
{
    let status = user.onboarding_status.as_str();
    if str_eq(status, "approved") {
        (
            owned("入驻已通过"),
            if str_eq(user.role.as_str(), "provider") {
                owned("现在可以发现创作者项目并发起真实合作。")
            } else {
                owned("现在可以发布作品推广需求并匹配已审核推广方。")
            },
        )
    } else if str_eq(status, "pending") {
        (owned("入驻资料审核中"), owned("平台正在核验身份与合作资料，审核通过前不会公开展示。"))
    } else if str_eq(status, "rejected") {
        (
            owned("入驻资料需要补充"),
            if user.review_note.as_str().is_empty() {
                owned("请修改资料后重新提交审核。")
            } else {
                user.review_note.clone()
            },
        )
    } else {
        (
            owned("完成入驻后再开始合作"),
            owned("先提交真实身份与业务资料，审核通过后进入对应工作台。"),
        )
    }
}

/// `bearer_token`: the token of an `Authorization: Bearer …` header value.
pub fn bearer_token(authorization: Option<&str>) -> (token: Option<String>)
    ensures
        match authorization {
            None => token is None,
            Some(v) => if has_prefix(v@, "Bearer "@) {
                token matches Some(t) && t@ == v@.skip(7)
            } else {
                token is None
            },
        },
{
    match authorization {
        None => None,
        Some(v) => {
            let c = chars_of(v);
            let p = chars_of("Bearer ");
            proof {
                reveal_strlit("Bearer ");
            }
            if crate::text::starts_with_chars(c.as_slice(), p.as_slice()) {
                let mut rest: Vec<char> = Vec::new();
                let n = c.len();
                let mut i: usize = 7;
                while i < n
                    invariant
                        7 <= i <= n,
                        n == c@.len(),
                        rest@ == c@.subrange(7, i as int),
                    decreases n - i,
                {
                    rest.push(c[i]);
                    assert(c@.subrange(7, i + 1) =~= c@.subrange(7, i as int).push(c@[i as int]));
                    i = i + 1;
                }
                assert(rest@ =~= v@.skip(7));
                Some(string_from_chars(rest.as_slice()))
            } else {
                None
            }
        },
    }
}


// ---------------------------------------------------------------------------
// Page assembly
// ---------------------------------------------------------------------------

/// A figure on the home and profile pages.
pub struct Metric {
    pub value: String,
    pub label: String,
}

/// The home page figures: a provider sees conversations, pending messages
/// and earnings; a creator sees tasks, partners and pending messages.
pub fn home_metrics(
    role: &str,
    conversation_count: i64,
    unread_count: i64,
    exposure_count: i64,
    settled: i64,
) -> (m: Vec<Metric>)
    ensures
        m@.len() == 3,
        role@ == "provider"@ ==> {
            &&& m@[0].value@ == crate::text::int_text(conversation_count as int)
            &&& m@[0].label@ == "合作会话"@
            &&& m@[1].value@ == crate::text::int_text(unread_count as int)
            &&& m@[1].label@ == "待处理消息"@
            &&& m@[2].value@ == format_money_spec(settled as int)
            &&& m@[2].label@ == "累计收益"@
        },
        role@ != "provider"@ ==> {
            &&& m@[0].value@ == crate::text::int_text(exposure_count as int)
            &&& m@[0].label@ == "推广任务"@
            &&& m@[1].value@ == crate::text::int_text(conversation_count as int)
            &&& m@[1].label@ == "合作伙伴"@
            &&& m@[2].value@ == crate::text::int_text(unread_count as int)
            &&& m@[2].label@ == "待处理消息"@
        },
{
    let mut m: Vec<Metric> = Vec::new();
    if str_eq(role, "provider") {
        m.push(Metric { value: crate::text::int_to_string(conversation_count), label: owned("合作会话") });
        m.push(Metric { value: crate::text::int_to_string(unread_count), label: owned("待处理消息") });
        m.push(Metric { value: format_money(settled), label: owned("累计收益") });
    } else {
        m.push(Metric { value: crate::text::int_to_string(exposure_count), label: owned("推广任务") });
        m.push(Metric { value: crate::text::int_to_string(conversation_count), label: owned("合作伙伴") });
        m.push(Metric { value: crate::text::int_to_string(unread_count), label: owned("待处理消息") });
    }
    m
}

/// What `format_money` prints for `cents`.
pub open spec fn format_money_spec(cents: int) -> Seq<char> {
    "¥"@ + (if cents < 0 {
        seq!['-']
    } else {
        Seq::empty()
    }) + nat_text(whole_yuan(
        (if cents < 0 {
            -cents
        } else {
            cents
        }) as nat,
    ))
}

/// The profile page figures for the user's role.
pub fn profile_stats(
    role: &str,
    verified: bool,
    conversation_count: i64,
    completed_settlements: i64,
    match_count: i64,
) -> (m: Vec<Metric>)
    ensures
        m@.len() == 3,
        role@ == "provider"@ ==> {
            &&& m@[0].value@ == crate::text::int_text(conversation_count as int)
            &&& m@[0].label@ == "创作者会话"@
            &&& m@[1].value@ == crate::text::int_text(completed_settlements as int)
            &&& m@[1].label@ == "完成合作"@
            &&& m@[2].value@ == (if verified {
                "已通过"@
            } else {
                "审核中"@
            })
            &&& m@[2].label@ == "入驻状态"@
        },
        role@ != "provider"@ ==> {
            &&& m@[0].value@ == crate::text::int_text(match_count as int)
            &&& m@[0].label@ == "推广需求"@
            &&& m@[1].value@ == crate::text::int_text(conversation_count as int)
            &&& m@[1].label@ == "推广伙伴"@
            &&& m@[2].value@ == (if verified {
                "已通过"@
            } else {
                "审核中"@
            })
            &&& m@[2].label@ == "创作者认证"@
        },
{
    let status = if verified {
        owned("已通过")
    } else {
        owned("审核中")
    };
    let mut m: Vec<Metric> = Vec::new();
    if str_eq(role, "provider") {
        m.push(Metric { value: crate::text::int_to_string(conversation_count), label: owned("创作者会话") });
        m.push(Metric { value: crate::text::int_to_string(completed_settlements), label: owned("完成合作") });
        m.push(Metric { value: status, label: owned("入驻状态") });
    } else {
        m.push(Metric { value: crate::text::int_to_string(match_count), label: owned("推广需求") });
        m.push(Metric { value: crate::text::int_to_string(conversation_count), label: owned("推广伙伴") });
        m.push(Metric { value: status, label: owned("创作者认证") });
    }
    m
}

/// The name of a role on the profile page.
pub fn role_label(role: &str) -> (label: &'static str)
    ensures
        label@ == (if role@ == "provider"@ {
            "推广服务方"@
        } else {
            "音乐创作者"@
        }),
{
    if str_eq(role, "provider") {
        "推广服务方"
    } else {
        "音乐创作者"
    }
}

/// The home page's subtitle for a role.
pub fn header_subtitle(role: &str) -> (label: &'static str)
    ensures
        label@ == (if role@ == "provider"@ {
            "推广服务方工作台"@
        } else {
            "音乐创作者工作台"@
        }),
{
    if str_eq(role, "provider") {
        "推广服务方工作台"
    } else {
        "音乐创作者工作台"
    }
}

/// What a partner page says was verified.
pub open spec fn verification_items_spec(partner_type: Seq<char>, contact_available: bool) -> Seq<
    Seq<char>,
> {
    if partner_type == "provider"@ && contact_available {
        seq!["平台入驻已审核"@, "服务资料可追溯"@, "联系方式已留存"@]
    } else if partner_type == "client"@ && contact_available {
        seq!["创作者入驻已审核"@, "代表作品已提交"@, "联系方式已留存"@]
    } else {
        seq!["平台公开资料已审核"@, "主页当前处于可展示状态"@]
    }
}

/// `partner_detail`'s verification items.
pub fn verification_items(partner_type: &str, contact_available: bool) -> (items: Vec<String>)
    ensures
        texts(items@) == verification_items_spec(partner_type@, contact_available),
{
    let mut items: Vec<String> = Vec::new();
    if str_eq(partner_type, "provider") && contact_available {
        items.push(owned("平台入驻已审核"));
        items.push(owned("服务资料可追溯"));
        items.push(owned("联系方式已留存"));
    } else if str_eq(partner_type, "client") && contact_available {
        items.push(owned("创作者入驻已审核"));
        items.push(owned("代表作品已提交"));
        items.push(owned("联系方式已留存"));
    } else {
        items.push(owned("平台公开资料已审核"));
        items.push(owned("主页当前处于可展示状态"));
    }
    assert(texts(items@) =~= verification_items_spec(partner_type@, contact_available));
    items
}

/// `update_profile`'s organisation and description: the submitted value or
/// the current one, trimmed; the organisation may not be blank.
pub fn profile_update(
    organization: Option<&str>,
    current_organization: &str,
    description: Option<&str>,
    current_description: &str,
) -> (r: Result<(String, String), AppError>)
    ensures
        ({
            let org = trim_seq(
                match organization {
                    Some(o) => o@,
                    None => current_organization@,
                },
            );
            let desc = trim_seq(
                match description {
                    Some(d) => d@,
                    None => current_description@,
                },
            );
            &&& org.len() == 0 ==> (r matches Err(e) && is_bad_request(
                e,
                "organization is required"@,
            ))
            &&& org.len() > 0 ==> (r matches Ok(v) && v.0@ == org && v.1@ == desc)
        }),
{
    let org = trim(
        match organization {
            Some(o) => o,
            None => current_organization,
        },
    );
    let desc = trim(
        match description {
            Some(d) => d,
            None => current_description,
        },
    );
    if org.as_str().is_empty() {
        return Err(bad_request("organization is required"));
    }
    Ok((org, desc))
}

/// `send_message`'s content: trimmed, and not blank.
pub fn message_content(content: &str) -> (r: Result<String, AppError>)
    ensures
        trim_seq(content@).len() == 0 ==> (r matches Err(e) && is_bad_request(
            e,
            "message content is required"@,
        )),
        trim_seq(content@).len() > 0 ==> (r matches Ok(c) && c@ == trim_seq(content@)),
{
    let c = trim(content);
    if c.as_str().is_empty() {
        return Err(bad_request("message content is required"));
    }
    Ok(c)
}

/// The role of a new session: the requested one, `provider` by default.
pub fn session_role(requested: Option<&str>) -> (role: &str)
    ensures
        match requested {
            Some(r) => role@ == r@,
            None => role@ == "provider"@,
        },
{
    match requested {
        Some(r) => r,
        None => "provider",
    }
}

/// The icon colour of a notice: gold for wallet notices, mint otherwise.
pub fn notification_icon_class(kind: &str) -> (class: &'static str)
    ensures
        class@ == (if kind@ == "wallet"@ {
            "gold"@
        } else {
            "mint"@
        }),
{
    if str_eq(kind, "wallet") {
        "gold"
    } else {
        "mint"
    }
}

/// The plan order of the AI plan page: random on refresh, best score first
/// otherwise.
pub fn ai_plan_order(refresh: Option<bool>) -> (order: &'static str)
    ensures
        order@ == (if refresh == Some(true) {
            "RANDOM()"@
        } else {
            "score DESC"@
        }),
{
    match refresh {
        Some(true) => "RANDOM()",
        _ => "score DESC",
    }
}

/// The label that a target table gives `key` (a later row with the same key
/// wins, as in a map built from the rows), or the key itself.
pub open spec fn target_label(table: Seq<(String, String)>, key: Seq<char>) -> Seq<char>
    decreases table.len(),
{
    if table.len() == 0 {
        key
    } else if table.last().0@ == key {
        table.last().1@
    } else {
        target_label(table.drop_last(), key)
    }
}

/// The label that the target table gives `key`.
fn lookup_label(table: &[(String, String)], key: &str) -> (label: String)
    ensures
        label@ == target_label(table@, key@),
{
    let m = table.len();
    let mut k: usize = m;
    assert(table@.take(m as int) =~= table@);
    while k > 0
        invariant
            k <= m,
            m == table@.len(),
            target_label(table@, key@) == target_label(table@.take(k as int), key@),
        decreases k,
    {
        assert(table@.take(k as int).drop_last() =~= table@.take(k - 1));
        assert(table@.take(k as int).last() == table@[k - 1]);
        if str_eq(table[k - 1].0.as_str(), key) {
            return table[k - 1].1.clone();
        }
        k = k - 1;
    }
    assert(table@.take(0) =~= Seq::<(String, String)>::empty());
    owned(key)
}

/// `list_demands`' target labels: each key's title, or the key itself.
pub fn target_labels(keys: &Vec<String>, table: &[(String, String)]) -> (labels: Vec<String>)
    ensures
        labels@.len() == keys@.len(),
        forall|i: int|
            0 <= i < keys@.len() ==> (#[trigger] labels@[i])@ == target_label(table@, keys@[i]@),
{
    let mut labels: Vec<String> = Vec::new();
    let n = keys.len();
    for i in 0..n
        invariant
            n == keys@.len(),
            labels@.len() == i,
            forall|j: int|
                0 <= j < i ==> (#[trigger] labels@[j])@ == target_label(table@, keys@[j]@),
    {
        let label = lookup_label(table, keys[i].as_str());
        labels.push(label);
    }
    labels
}

// ---------------------------------------------------------------------------
// Demand, plan and profile page rules
// ---------------------------------------------------------------------------

/// `create_match`'s check of the referenced work and budget bracket.
pub fn check_match_references(song_exists: bool, budget_exists: bool) -> (r: Result<(), AppError>)
    ensures
        song_exists && budget_exists ==> r is Ok,
        !(song_exists && budget_exists) ==> (r matches Err(e) && is_bad_request(
            e,
            "invalid song or budget"@,
        )),
{
    if !song_exists || !budget_exists {
        return Err(bad_request("invalid song or budget"));
    }
    Ok(())
}

/// `create_match`'s notice for the providers found; finding none refuses the
/// demand.
pub fn match_summary(found: u64) -> (r: Result<String, AppError>)
    ensures
        found == 0 ==> (r matches Err(e) && is_bad_request(e, "no approved providers available"@)),
        found > 0 ==> (r matches Ok(s) && s@ == "匹配已完成，找到 "@ + nat_text(found as nat)
            + " 位已审核推广方"@),
{
    if found == 0 {
        return Err(bad_request("no approved providers available"));
    }
    let n = crate::text::uint_to_string(found);
    Ok(crate::text::concat3("匹配已完成，找到 ", n.as_str(), " 位已审核推广方"))
}

/// `save_plan`'s rule: only providers keep plans.
pub fn check_plan_saver(user: &UserRow) -> (r: Result<(), AppError>)
    ensures
        user.role@ == "provider"@ ==> r is Ok,
        user.role@ != "provider"@ ==> (r matches Err(e) && is_bad_request(
            e,
            "creator wallet is not available"@,
        )),
{
    if !str_eq(user.role.as_str(), "provider") {
        return Err(bad_request("creator wallet is not available"));
    }
    Ok(())
}

/// The AI plan page's overview line.
pub fn plans_insight(count: u64) -> (s: String)
    ensures
        s@ == "当前共有 "@ + nat_text(count as nat) + " 个可用推广方案"@,
{
    let n = crate::text::uint_to_string(count);
    crate::text::concat3("当前共有 ", n.as_str(), " 个可用推广方案")
}

/// `update_profile`'s tags: trimmed, blanks dropped (no cap).
pub fn profile_tags(tags: &Vec<String>) -> (r: Vec<String>)
    ensures
        texts(r@) == kept_tags(texts(tags@)),
{
    let ghost all = texts(tags@);
    let mut kept: Vec<String> = Vec::new();
    let n = tags.len();
    for i in 0..n
        invariant
            n == tags@.len(),
            all == texts(tags@),
            texts(kept@) == kept_tags(all.take(i as int)),
    {
        assert(all.take(i + 1).drop_last() =~= all.take(i as int));
        assert(all.take(i + 1).last() == tags@[i as int]@);
        let t = trim(tags[i].as_str());
        if !t.as_str().is_empty() {
            let ghost before = kept@;
            kept.push(t);
            assert(texts(kept@) =~= texts(before).push(kept@.last()@));
        }
    }
    assert(all.take(n as int) =~= all);
    kept
}

/// `update_profile`'s display name: the submitted one, trimmed, where it is
/// not blank.
pub fn profile_display_name(display_name: Option<&str>) -> (r: Option<String>)
    ensures
        match display_name {
            Some(d) => if trim_seq(d@).len() > 0 {
                r matches Some(n) && n@ == trim_seq(d@)
            } else {
                r is None
            },
            None => r is None,
        },
{
    match display_name {
        Some(d) => {
            let t = trim(d);
            if t.as_str().is_empty() {
                None
            } else {
                Some(t)
            }
        },
        None => None,
    }
}

/// `partner_detail`'s contact line and whether a contact can be unlocked,
/// from the approved application's contact method, if any.
pub fn contact_preview(contact_method: Option<&str>) -> (r: (String, bool))
    ensures
        match contact_method {
            Some(c) => r.1 && r.0@ == (if c@.contains('@') {
                "邮箱联系方式已提交平台审核"@
            } else if exists|i: int| 0 <= i < c@.len() && '0' <= #[trigger] c@[i] <= '9' {
                "手机号或微信联系方式已提交平台审核"@
            } else {
                "联系方式已提交平台审核"@
            }),
            None => !r.1 && r.0@ == "该主页暂未配置可解锁联系方式"@,
        },
{
    match contact_method {
        Some(c) => (describe_contact_method(c), true),
        None => (owned("该主页暂未配置可解锁联系方式"), false),
    }
}

/// `with_partner_tags`: the partner with the tags its stored JSON holds.
pub fn with_partner_tags(partner: Partner) -> (p: Partner)
    ensures
        texts(p.tags@) == crate::json::string_list_or_empty(partner.tags_json@),
        p.id == partner.id,
        p.partner_type == partner.partner_type,
        p.avatar == partner.avatar,
        p.avatar_class == partner.avatar_class,
        p.name == partner.name,
        p.identity == partner.identity,
        p.description == partner.description,
        p.tags_json == partner.tags_json,
        p.match_score == partner.match_score,
        p.result_text == partner.result_text,
        p.active == partner.active,
{
    let tags = crate::json::parse_string_list(partner.tags_json.as_str());
    Partner { tags, ..partner }
}

/// `with_plan_tags`: the plan with the tags its stored JSON holds.
pub fn with_plan_tags(plan: Plan) -> (p: Plan)
    ensures
        texts(p.tags@) == crate::json::string_list_or_empty(plan.tags_json@),
        p.id == plan.id,
        p.icon_class == plan.icon_class,
        p.color_class == plan.color_class,
        p.title == plan.title,
        p.plan_type == plan.plan_type,
        p.description == plan.description,
        p.tags_json == plan.tags_json,
        p.budget_amount == plan.budget_amount,
        p.score == plan.score,
        p.active == plan.active,
{
    let tags = crate::json::parse_string_list(plan.tags_json.as_str());
    Plan { tags, ..plan }
}

/// The plaza's order: newest first on the `latest` tab, best match first
/// otherwise.
pub fn plaza_order(tab: Option<&str>) -> (order: &'static str)
    ensures
        order@ == (if tab matches Some(t) && t@ == "latest"@ {
            "created_at DESC"@
        } else {
            "match_score DESC"@
        }),
{
    match tab {
        Some(t) => if str_eq(t, "latest") {
            "created_at DESC"
        } else {
            "match_score DESC"
        },
        None => "match_score DESC",
    }
}

/// Whether the user may start a collaboration: only after approval.
pub fn can_connect(user: &UserRow) -> (ok: bool)
    ensures
        ok == (user.onboarding_status@ == "approved"@),
{
    str_eq(user.onboarding_status.as_str(), "approved")
}

/// The partner's first message in a new conversation.
pub const PARTNER_WELCOME: &'static str = "你好，欢迎联系我！我们可以先聊聊合作需求。";

/// The title of the agent action that opened a conversation with a partner.
pub fn contact_action_title(partner_name: &str) -> (t: String)
    ensures
        t@ == "联系"@ + partner_name@,
{
    concat2("联系", partner_name)
}

} // verus!
