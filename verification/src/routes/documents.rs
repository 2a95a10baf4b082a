//! The handlers of the document store, which keeps profile drafts and
//! accounts as free-form documents.

use vstd::prelude::*;
use vstd::string::StringSliceAdditionalSpecFns;
use crate::auth::jwt::{jwt_token, SigningScheme};
use crate::auth::password::{hmac_sha256_hex, keyed_digest};
use crate::auth::session::{session_members, spec_session, Claims, JWTAuthService};
use crate::auth::user_auth::TOKEN_VALIDITY_SECONDS;
use crate::profile::Profile;
use crate::text::same_text;

verus! {

/// The envelope of every answer of the document store's handlers.
#[derive(Debug, PartialEq, Eq)]
pub struct STDJSONResponse<T> {
    pub success: bool,
    pub data: Option<T>,
    pub errmsg: Option<String>,
}

#[derive(Debug, PartialEq, Eq)]
pub struct CreateData {
    pub uuid: String,
}

#[derive(Clone, Copy, Debug, PartialEq, Eq, Structural)]
pub struct QueryData {
    pub exist: bool,
    pub init: bool,
}

#[derive(Debug, PartialEq, Eq)]
pub struct GetData {
    pub profile: Profile,
}

#[derive(Clone, Copy, Debug, PartialEq, Eq, Structural)]
pub struct UpdateData {
    pub exist: bool,
    pub init: bool,
    pub updated_count: i64,
}

#[derive(Clone, Copy, Debug, PartialEq, Eq, Structural)]
pub struct InitData {
    pub exist: bool,
}

#[derive(Debug, PartialEq, Eq)]
pub struct LoginRequest {
    pub username: String,
    pub pwhashed: String,
}

#[derive(Debug, PartialEq, Eq)]
pub struct VerifyData {
    pub username: String,
}

/// What a login answers: the session token for the `JWT` cookie.
#[derive(Debug, PartialEq, Eq)]
pub struct LoginData {
    pub token: String,
}

#[derive(Debug, PartialEq, Eq)]
pub struct RegisterData {
    pub username: String,
}

/// An account as the document store keeps it.
#[derive(Debug, PartialEq, Eq)]
pub struct StoredUser {
    pub username: String,
    pub pwhashed: String,
}

/// What the identity provider answers when a login code is redeemed.
#[derive(Debug, PartialEq, Eq)]
pub struct OpenIDResponse {
    pub openid: Option<String>,
    pub session_key: Option<String>,
    pub unionid: Option<String>,
    pub errcode: i64,
    pub errmsg: String,
    pub hint: Option<String>,
}

/// Wraps data or a message in the envelope. An answer is a success exactly
/// when it carries data.
pub fn gen_std_json_response<T>(data: Option<T>, errmsg: Option<String>) -> (out: STDJSONResponse<
    T,
>)
    ensures
        out.success == data is Some,
        out.data == data,
        out.errmsg == errmsg,
{
    STDJSONResponse { success: data.is_some(), data, errmsg }
}

/// One request to the document store or to the identity provider.
#[derive(Debug, PartialEq, Eq)]
pub enum DocumentRequest {
    /// Load the profile with this identifier.
    FindProfile { uuid: String },
    /// Create a profile draft. A draft made for printing is marked as not
    /// deleted; one made on first scan carries no such mark.
    CreateProfile { uuid: String, init: bool, delete: Option<bool> },
    /// Write all fields of a profile.
    SetProfile { profile: Profile },
    /// Load the account with this name.
    FindUser { username: String },
    /// Create an account.
    CreateUser { username: String, pwhashed: String },
    /// Redeem a login code at this address of the identity provider.
    RedeemCode { url: String },
}

/// The reply to a request.
#[derive(Debug, PartialEq, Eq)]
pub enum DocumentReply {
    /// Nothing was asked yet.
    Begin,
    /// The store failed.
    Failed,
    /// There is no such document.
    Missing,
    /// The profile is there. Its fields come with it once it is filled in.
    Profile { init: bool, document: Option<Profile> },
    User(StoredUser),
    /// The document was created.
    Created,
    /// The number of documents that a write changed.
    Modified(i64),
    Redeemed(OpenIDResponse),
}

/// What a handler of the document store does next.
#[derive(Debug, PartialEq, Eq)]
pub enum DocumentStep<T> {
    Ask(DocumentRequest),
    Done(STDJSONResponse<T>),
}

/// Whether a handler ends here with the message `errmsg` and no data.
pub open spec fn fails_with<T>(step: DocumentStep<T>, errmsg: Seq<char>) -> bool {
    match step {
        DocumentStep::Done(answer) => {
            &&& !answer.success
            &&& answer.data is None
            &&& match answer.errmsg {
                Some(text) => text@ == errmsg,
                None => false,
            }
        },
        DocumentStep::Ask(_) => false,
    }
}

/// Whether a handler ends here with `data` and no message.
pub open spec fn succeeds_with<T>(step: DocumentStep<T>, data: T) -> bool {
    match step {
        DocumentStep::Done(answer) => answer.success && answer.data == Some(data)
            && answer.errmsg is None,
        DocumentStep::Ask(_) => false,
    }
}

/// Ends a handler with a message.
pub fn fail<T>(errmsg: &str) -> (out: DocumentStep<T>)
    ensures
        fails_with(out, errmsg@),
{
    DocumentStep::Done(gen_std_json_response(None, Some(errmsg.to_owned())))
}

/// Ends a handler with data.
pub fn succeed<T>(data: T) -> (out: DocumentStep<T>)
    ensures
        succeeds_with(out, data),
{
    DocumentStep::Done(gen_std_json_response(Some(data), None))
}

/// The twelve digits that `chrono` writes for the minute in which a second
/// lies, on a clock that is `offset_seconds` ahead of universal time: year,
/// month, day, hour and minute. Nothing where it cannot represent the offset
/// or the time.
pub uninterp spec fn minute_stamp(now: int, offset_seconds: int) -> Option<Seq<char>>;

/// Makes the offset with `chrono::FixedOffset::east_opt` and the time with
/// `DateTime::from_timestamp`, moves the time to the offset with
/// `DateTime::with_timezone` and writes it with `format` under the pattern
/// `%Y%m%d%H%M`. The text depends on the two numbers alone; the contract
/// names it.
#[verifier::external_body]
pub(crate) fn format_minute(now: i64, offset_seconds: i32) -> (stamp: Option<String>)
    ensures
        match stamp {
            Some(text) => minute_stamp(now as int, offset_seconds as int) == Some(text@),
            None => minute_stamp(now as int, offset_seconds as int) is None,
        },
{
    let zone = chrono::FixedOffset::east_opt(offset_seconds)?;
    let time = chrono::DateTime::from_timestamp(now, 0)?.with_timezone(&zone);
    Some(time.format("%Y%m%d%H%M").to_string())
}

/// Whether `c` is one of the characters of `alphabet`.
pub open spec fn drawn_from(alphabet: Seq<char>, c: char) -> bool {
    exists|k: int| 0 <= k < alphabet.len() && alphabet[k] == c
}

/// Calls `nanoid::format` with `nanoid::rngs::default`, which draws `size`
/// characters at random from `alphabet`. The alphabet must hold between two
/// and 255 characters, all of them ASCII, and `size` must be between one and
/// a thousand: outside of that the call can fail or run without end. Every
/// outcome has `size` characters, each of them from the alphabet; which ones
/// is left open.
#[verifier::external_body]
pub(crate) fn random_text(alphabet: &[char], size: usize) -> (text: String)
    requires
        2 <= alphabet@.len() <= 255,
        forall|k: int| 0 <= k < alphabet@.len() ==> (#[trigger] alphabet@[k] as u32) < 128,
        1 <= size <= 1000,
    ensures
        text@.len() == size,
        forall|i: int| 0 <= i < text@.len() ==> drawn_from(alphabet@, #[trigger] text@[i]),
{
    nanoid::format(nanoid::rngs::default, alphabet, size)
}

/// How many random digits close the identifier of a new product.
pub const SUFFIX_DIGITS: usize = 4;

/// Draws the random digits that close the identifier of a new product.
pub fn random_suffix() -> (suffix: String)
    ensures
        suffix@.len() == SUFFIX_DIGITS,
        forall|i: int| 0 <= i < suffix@.len() ==> crate::text::is_digit(#[trigger] suffix@[i]),
{
    let alphabet: [char; 10] = ['0', '1', '2', '3', '4', '5', '6', '7', '8', '9'];
    let suffix = random_text(alphabet.as_slice(), SUFFIX_DIGITS);
    assert forall|i: int| 0 <= i < suffix@.len() implies crate::text::is_digit(
        #[trigger] suffix@[i],
    ) by {
        let k = choose|k: int| 0 <= k < alphabet@.len() && alphabet@[k] == suffix@[i];
        assert(crate::text::is_digit(alphabet@[k]));
    }
    suffix
}

/// The identifier of a product made in the minute `stamp` with the random
/// digits `suffix`.
pub fn product_uuid(stamp: &str, suffix: &str) -> (uuid: String)
    ensures
        uuid@ == stamp@ + suffix@,
{
    let mut uuid = stamp.to_owned();
    uuid.append(suffix);
    uuid
}

/// Where the making of a product stands.
#[derive(Debug, PartialEq, Eq)]
pub enum NewProductState {
    Start,
    AwaitCreate { uuid: String },
    Finished,
}

/// Makes a product for printing: its identifier is the minute of `now` on
/// the local clock, which is `offset_seconds` ahead of universal time,
/// followed by four random digits. A draft is created under it, not filled
/// in and not deleted.
pub fn new_product(
    state: NewProductState,
    event: DocumentReply,
    _auth: JWTAuthService,
    now: i64,
    offset_seconds: i32,
) -> (out: (NewProductState, DocumentStep<CreateData>))
    ensures
        match (state, event) {
            (NewProductState::Start, DocumentReply::Begin) => match minute_stamp(
                now as int,
                offset_seconds as int,
            ) {
                None => out.0 is Finished && fails_with(out.1, "服务器插入错误！"@),
                Some(stamp) => {
                    &&& out.0 matches NewProductState::AwaitCreate { uuid }
                    &&& out.1 matches DocumentStep::Ask(
                        DocumentRequest::CreateProfile { uuid: asked, init, delete },
                    )
                    &&& asked@ == uuid@
                    &&& !init
                    &&& delete == Some(false)
                    &&& uuid@.len() == stamp.len() + SUFFIX_DIGITS
                    &&& uuid@.subrange(0, stamp.len() as int) == stamp
                    &&& forall|i: int|
                        stamp.len() <= i < uuid@.len() ==> crate::text::is_digit(
                            #[trigger] uuid@[i],
                        )
                },
            },
            (NewProductState::AwaitCreate { uuid }, DocumentReply::Created) => {
                &&& out.0 is Finished
                &&& out.1 matches DocumentStep::Done(answer)
                &&& answer.success
                &&& answer.errmsg is None
                &&& answer.data matches Some(made)
                &&& made.uuid@ == uuid@
            },
            (_, _) => out.0 is Finished && fails_with(out.1, "服务器插入错误！"@),
        },
{
    match (state, event) {
        (NewProductState::Start, DocumentReply::Begin) => {
            let stamp = match format_minute(now, offset_seconds) {
                Some(stamp) => stamp,
                None => { return (NewProductState::Finished, fail("服务器插入错误！")); },
            };
            let suffix = random_suffix();
            let uuid = product_uuid(stamp.as_str(), suffix.as_str());
            proof {
                assert(uuid@.subrange(0, stamp@.len() as int) =~= stamp@);
                assert forall|i: int| stamp@.len() <= i < uuid@.len() implies crate::text::is_digit(
                    #[trigger] uuid@[i],
                ) by {
                    assert(uuid@[i] == suffix@[i - stamp@.len()]);
                }
            }
            let asked = uuid.clone();
            (
                NewProductState::AwaitCreate { uuid },
                DocumentStep::Ask(
                    DocumentRequest::CreateProfile {
                        uuid: asked,
                        init: false,
                        delete: Some(false),
                    },
                ),
            )
        },
        (NewProductState::AwaitCreate { uuid }, DocumentReply::Created) => (
            NewProductState::Finished,
            DocumentStep::Done(gen_std_json_response(Some(CreateData { uuid }), None)),
        ),
        (_, _) => (NewProductState::Finished, fail("服务器插入错误！")),
    }
}

/// Where the first scan of a product stands.
#[derive(Clone, Copy, Debug, PartialEq, Eq, Structural)]
pub enum InitProductState {
    AwaitLookup,
    AwaitCreate,
    Finished,
}

/// Handles the first scan of a product. A product that has a draft already
/// is reported as existing. For any other a draft is created, not filled in,
/// and the product is reported as new.
pub fn init_product(
    state: InitProductState,
    event: DocumentReply,
    uuid: &str,
    _auth: JWTAuthService,
) -> (out: (InitProductState, DocumentStep<InitData>))
    ensures
        match (state, event) {
            (InitProductState::AwaitLookup, DocumentReply::Begin) => {
                &&& out.0 == InitProductState::AwaitLookup
                &&& out.1 matches DocumentStep::Ask(DocumentRequest::FindProfile { uuid: asked })
                &&& asked@ == uuid@
            },
            (InitProductState::AwaitLookup, DocumentReply::Profile { .. }) => {
                out.0 is Finished && succeeds_with(out.1, InitData { exist: true })
            },
            (InitProductState::AwaitLookup, DocumentReply::Missing) => {
                &&& out.0 == InitProductState::AwaitCreate
                &&& out.1 matches DocumentStep::Ask(
                    DocumentRequest::CreateProfile { uuid: asked, init, delete },
                )
                &&& asked@ == uuid@
                &&& !init
                &&& delete is None
            },
            (InitProductState::AwaitLookup, _) => out.0 is Finished && fails_with(
                out.1,
                "数据库查询错误！"@,
            ),
            (InitProductState::AwaitCreate, DocumentReply::Created) => {
                out.0 is Finished && succeeds_with(out.1, InitData { exist: false })
            },
            (_, _) => out.0 is Finished && fails_with(out.1, "数据库插入错误！"@),
        },
{
    match (state, event) {
        (InitProductState::AwaitLookup, DocumentReply::Begin) => (
            InitProductState::AwaitLookup,
            DocumentStep::Ask(DocumentRequest::FindProfile { uuid: uuid.to_owned() }),
        ),
        (InitProductState::AwaitLookup, DocumentReply::Profile { .. }) => (
            InitProductState::Finished,
            succeed(InitData { exist: true }),
        ),
        (InitProductState::AwaitLookup, DocumentReply::Missing) => (
            InitProductState::AwaitCreate,
            DocumentStep::Ask(
                DocumentRequest::CreateProfile { uuid: uuid.to_owned(), init: false, delete: None },
            ),
        ),
        (InitProductState::AwaitLookup, _) => (
            InitProductState::Finished,
            fail("数据库查询错误！"),
        ),
        (InitProductState::AwaitCreate, DocumentReply::Created) => (
            InitProductState::Finished,
            succeed(InitData { exist: false }),
        ),
        (_, _) => (InitProductState::Finished, fail("数据库插入错误！")),
    }
}

/// Tells whether a product has a draft and whether it is filled in.
pub fn query_profile(event: DocumentReply, uuid: &str) -> (out: DocumentStep<QueryData>)
    ensures
        match event {
            DocumentReply::Begin => {
                &&& out matches DocumentStep::Ask(DocumentRequest::FindProfile { uuid: asked })
                &&& asked@ == uuid@
            },
            DocumentReply::Profile { init, .. } => succeeds_with(
                out,
                QueryData { exist: true, init },
            ),
            DocumentReply::Missing => succeeds_with(out, QueryData { exist: false, init: false }),
            _ => fails_with(out, "服务器查询错误！"@),
        },
{
    match event {
        DocumentReply::Begin => DocumentStep::Ask(
            DocumentRequest::FindProfile { uuid: uuid.to_owned() },
        ),
        DocumentReply::Profile { init, .. } => succeed(QueryData { exist: true, init }),
        DocumentReply::Missing => succeed(QueryData { exist: false, init: false }),
        _ => fail("服务器查询错误！"),
    }
}

/// Reads the profile of a product. A draft that is not filled in has no
/// profile to show yet.
pub fn get_profile(event: DocumentReply, uuid: &str, _auth: JWTAuthService) -> (out: DocumentStep<
    GetData,
>)
    ensures
        match event {
            DocumentReply::Begin => {
                &&& out matches DocumentStep::Ask(DocumentRequest::FindProfile { uuid: asked })
                &&& asked@ == uuid@
            },
            DocumentReply::Profile { init, document } => if init && document is Some {
                succeeds_with(out, GetData { profile: document->0 })
            } else {
                fails_with(out, "档案未填写！"@)
            },
            DocumentReply::Missing => fails_with(out, "档案不存在！"@),
            _ => fails_with(out, "数据库查询错误！"@),
        },
{
    match event {
        DocumentReply::Begin => DocumentStep::Ask(
            DocumentRequest::FindProfile { uuid: uuid.to_owned() },
        ),
        DocumentReply::Profile { init, document } => {
            if init {
                match document {
                    Some(profile) => succeed(GetData { profile }),
                    None => fail("档案未填写！"),
                }
            } else {
                fail("档案未填写！")
            }
        },
        DocumentReply::Missing => fail("档案不存在！"),
        _ => fail("数据库查询错误！"),
    }
}

/// What the answer of the identity provider means for a submission: the
/// identity to store, or the message to end with.
pub open spec fn spec_redeemed(answer: OpenIDResponse) -> Result<Seq<char>, Seq<char>> {
    if answer.errcode == 0 {
        match answer.openid {
            Some(id) => Ok(id@),
            None => Err("微信服务器错误！"@),
        }
    } else if answer.errcode == -1 {
        Err("微信服务器繁忙！"@)
    } else if answer.errcode == 40029 {
        Err("用户代码无效！"@)
    } else if answer.errcode == 45011 {
        Err("达到频率上限！"@)
    } else {
        Err("微信服务器错误！"@)
    }
}

/// Reads the answer of the identity provider: code 0 carries the identity,
/// -1 tells that the provider is busy, 40029 that the login code is invalid,
/// 45011 that the rate limit is reached, and any other code, or a missing
/// identity, is an error of the provider.
pub fn redeemed(answer: OpenIDResponse) -> (out: Result<String, String>)
    ensures
        match out {
            Ok(id) => spec_redeemed(answer) == Ok::<Seq<char>, Seq<char>>(id@),
            Err(errmsg) => spec_redeemed(answer) == Err::<Seq<char>, Seq<char>>(errmsg@),
        },
{
    if answer.errcode == 0 {
        match answer.openid {
            Some(id) => Ok(id),
            None => Err("微信服务器错误！".to_owned()),
        }
    } else if answer.errcode == -1 {
        Err("微信服务器繁忙！".to_owned())
    } else if answer.errcode == 40029 {
        Err("用户代码无效！".to_owned())
    } else if answer.errcode == 45011 {
        Err("达到频率上限！".to_owned())
    } else {
        Err("微信服务器错误！".to_owned())
    }
}

/// Where the submission of a profile stands.
#[derive(Clone, Copy, Debug, PartialEq, Eq, Structural)]
pub enum SubmitProfileState {
    AwaitLookup,
    /// Waiting for the identity provider to redeem the login code.
    AwaitIdentity,
    AwaitWrite,
    Finished,
}

/// Whether `stored` is the profile `sent` with `identity` in place of the
/// login code.
pub open spec fn with_identity(stored: Profile, sent: Profile, identity: Seq<char>) -> bool {
    &&& stored.openID@ == identity
    &&& stored.uuid@ == sent.uuid@
    &&& stored.init == sent.init
    &&& stored.name@ == sent.name@
    &&& stored.delete == sent.delete
    &&& stored.gender@ == sent.gender@
    &&& stored.time@ == sent.time@
    &&& stored.phone@ == sent.phone@
    &&& stored.address@ == sent.address@
    &&& stored.age == sent.age
    &&& stored.email@ == sent.email@
    &&& stored.hospital@ == sent.hospital@
    &&& stored.firstTime == sent.firstTime
    &&& stored.profession@ == sent.profession@
}

/// Puts an identity into a profile in place of the login code.
pub fn put_identity(sent: &Profile, identity: String) -> (stored: Profile)
    ensures
        with_identity(stored, *sent, identity@),
{
    Profile {
        uuid: sent.uuid.clone(),
        init: sent.init,
        name: sent.name.clone(),
        delete: sent.delete,
        gender: sent.gender.clone(),
        time: sent.time.clone(),
        phone: sent.phone.clone(),
        address: sent.address.clone(),
        age: sent.age,
        email: sent.email.clone(),
        hospital: sent.hospital.clone(),
        firstTime: sent.firstTime,
        profession: sent.profession.clone(),
        openID: identity,
    }
}

/// Whether a handler asks here to write `sent` with `identity` in it.
pub open spec fn asks_write(
    step: DocumentStep<UpdateData>,
    sent: Profile,
    identity: Seq<char>,
) -> bool {
    match step {
        DocumentStep::Ask(DocumentRequest::SetProfile { profile }) => with_identity(
            profile,
            sent,
            identity,
        ),
        _ => false,
    }
}

/// The address at which a login code of the mini program is redeemed.
pub open spec fn spec_session_url(appid: Seq<char>, secret: Seq<char>, code: Seq<char>) -> Seq<
    char,
> {
    "https://api.weixin.qq.com/sns/jscode2session?appid="@ + appid + "&secret="@ + secret
        + "&js_code="@ + code + "&grant_type=authorization_code"@
}

/// The address at which a login code of the mini program is redeemed.
pub fn session_url(appid: &str, secret: &str, code: &str) -> (url: String)
    ensures
        url@ == spec_session_url(appid@, secret@, code@),
{
    let mut url: String = "https://api.weixin.qq.com/sns/jscode2session?appid=".to_owned();
    url.append(appid);
    url.append("&secret=");
    url.append(secret);
    url.append("&js_code=");
    url.append(code);
    url.append("&grant_type=authorization_code");
    url
}

/// Submits a profile for a product. A product without a draft, and one whose
/// draft is filled in already, are reported as such and nothing is written.
/// A profile that carries a login code has the code redeemed first, at the
/// address made of the app id, the app secret and the code, and the identity
/// stored in its place; where the provider refuses, its message ends the
/// handler. Then all fields of the profile are written, and the answer
/// tells how many documents changed.
pub fn submit_profile(
    state: SubmitProfileState,
    event: DocumentReply,
    form_data: &Profile,
    appid: &str,
    secret: &str,
) -> (out: (SubmitProfileState, DocumentStep<UpdateData>))
    ensures
        match (state, event) {
            (SubmitProfileState::AwaitLookup, DocumentReply::Begin) => {
                &&& out.0 == SubmitProfileState::AwaitLookup
                &&& out.1 matches DocumentStep::Ask(DocumentRequest::FindProfile { uuid })
                &&& uuid@ == form_data.uuid@
            },
            (SubmitProfileState::AwaitLookup, DocumentReply::Missing) => {
                out.0 is Finished && succeeds_with(
                    out.1,
                    UpdateData { exist: false, init: false, updated_count: 0 },
                )
            },
            (SubmitProfileState::AwaitLookup, DocumentReply::Profile { init, .. }) => {
                if init {
                    out.0 is Finished && succeeds_with(
                        out.1,
                        UpdateData { exist: true, init: true, updated_count: 0 },
                    )
                } else if form_data.openID@.len() != 0 {
                    &&& out.0 == SubmitProfileState::AwaitIdentity
                    &&& out.1 matches DocumentStep::Ask(DocumentRequest::RedeemCode { url })
                    &&& url@ == spec_session_url(appid@, secret@, form_data.openID@)
                } else {
                    out.0 == SubmitProfileState::AwaitWrite && asks_write(
                        out.1,
                        *form_data,
                        form_data.openID@,
                    )
                }
            },
            (SubmitProfileState::AwaitLookup, _) => out.0 is Finished && fails_with(
                out.1,
                "数据库查询错误！"@,
            ),
            (SubmitProfileState::AwaitIdentity, DocumentReply::Redeemed(answer)) => {
                match spec_redeemed(answer) {
                    Ok(identity) => out.0 == SubmitProfileState::AwaitWrite && asks_write(
                        out.1,
                        *form_data,
                        identity,
                    ),
                    Err(errmsg) => out.0 is Finished && fails_with(out.1, errmsg),
                }
            },
            (SubmitProfileState::AwaitIdentity, _) => out.0 is Finished && fails_with(
                out.1,
                "微信服务器错误！"@,
            ),
            (SubmitProfileState::AwaitWrite, DocumentReply::Modified(count)) => {
                out.0 is Finished && succeeds_with(
                    out.1,
                    UpdateData { exist: true, init: false, updated_count: count },
                )
            },
            (_, _) => out.0 is Finished && fails_with(out.1, "数据库修改错误！"@),
        },
{
    match (state, event) {
        (SubmitProfileState::AwaitLookup, DocumentReply::Begin) => (
            SubmitProfileState::AwaitLookup,
            DocumentStep::Ask(DocumentRequest::FindProfile { uuid: form_data.uuid.clone() }),
        ),
        (SubmitProfileState::AwaitLookup, DocumentReply::Missing) => (
            SubmitProfileState::Finished,
            succeed(UpdateData { exist: false, init: false, updated_count: 0 }),
        ),
        (SubmitProfileState::AwaitLookup, DocumentReply::Profile { init, .. }) => {
            if init {
                (
                    SubmitProfileState::Finished,
                    succeed(UpdateData { exist: true, init: true, updated_count: 0 }),
                )
            } else if form_data.openID.as_str().unicode_len() != 0 {
                (
                    SubmitProfileState::AwaitIdentity,
                    DocumentStep::Ask(
                        DocumentRequest::RedeemCode {
                            url: session_url(appid, secret, form_data.openID.as_str()),
                        },
                    ),
                )
            } else {
                (
                    SubmitProfileState::AwaitWrite,
                    DocumentStep::Ask(
                        DocumentRequest::SetProfile {
                            profile: put_identity(form_data, form_data.openID.clone()),
                        },
                    ),
                )
            }
        },
        (SubmitProfileState::AwaitLookup, _) => (
            SubmitProfileState::Finished,
            fail("数据库查询错误！"),
        ),
        (SubmitProfileState::AwaitIdentity, DocumentReply::Redeemed(answer)) => {
            match redeemed(answer) {
                Ok(identity) => (
                    SubmitProfileState::AwaitWrite,
                    DocumentStep::Ask(
                        DocumentRequest::SetProfile { profile: put_identity(form_data, identity) },
                    ),
                ),
                Err(errmsg) => (
                    SubmitProfileState::Finished,
                    DocumentStep::Done(gen_std_json_response(None, Some(errmsg))),
                ),
            }
        },
        (SubmitProfileState::AwaitIdentity, _) => (
            SubmitProfileState::Finished,
            fail("微信服务器错误！"),
        ),
        (SubmitProfileState::AwaitWrite, DocumentReply::Modified(count)) => (
            SubmitProfileState::Finished,
            succeed(UpdateData { exist: true, init: false, updated_count: count }),
        ),
        (_, _) => (SubmitProfileState::Finished, fail("数据库修改错误！")),
    }
}

/// Tells whose session a request belongs to. The token is the one that the
/// guard has let pass; if it is good no longer, the answer says so.
pub fn verify_token(_auth: JWTAuthService, token: &str, secret: &str, now: i64) -> (out:
    STDJSONResponse<VerifyData>)
    ensures
        match spec_session(token@, secret.spec_bytes(), now as int) {
            Some(session) => {
                &&& out.success
                &&& out.errmsg is None
                &&& out.data matches Some(who)
                &&& who.username@ == session.1
            },
            None => {
                &&& !out.success
                &&& out.data is None
                &&& out.errmsg matches Some(text)
                &&& text@ == "认证无效！"@
            },
        },
{
    match Claims::decode(token, secret, now) {
        Some(claims) => gen_std_json_response(Some(VerifyData { username: claims.usr }), None),
        None => gen_std_json_response(None, Some("认证无效！".to_owned())),
    }
}

/// Whether a handler ends here as a login against the stored account ends.
/// The password that the client sent is hashed under `salt` and compared with
/// the stored digest; a password that does not match ends in its message.
/// The session lasts seven days from `now`. Its token is the one that signing
/// the session's claims under `secret` gives, and the message that no token
/// could be made comes exactly where the end of the session cannot be written
/// or signing gives none.
pub open spec fn opens_session(
    out: DocumentStep<LoginData>,
    stored: StoredUser,
    user: LoginRequest,
    salt: Seq<u8>,
    secret: Seq<u8>,
    now: i64,
) -> bool {
    if hmac_sha256_hex(salt, vstd::utf8::encode_utf8(user.pwhashed@)) != stored.pwhashed@ {
        fails_with(out, "密码不正确！"@)
    } else if now < 0 || now + TOKEN_VALIDITY_SECONDS > i64::MAX {
        fails_with(out, "生成JWT错误！"@)
    } else {
        match jwt_token(
            SigningScheme::Hs256,
            session_members((now + TOKEN_VALIDITY_SECONDS) as u64, user.username@),
            secret,
        ) {
            None => fails_with(out, "生成JWT错误！"@),
            Some(token) => match out {
                DocumentStep::Done(answer) => {
                    &&& answer.success
                    &&& answer.errmsg is None
                    &&& match answer.data {
                        Some(made) => made.token@ == token,
                        None => false,
                    }
                },
                DocumentStep::Ask(_) => false,
            },
        }
    }
}

/// Decides a login against the stored account.
pub fn open_session(
    stored: &StoredUser,
    user: &LoginRequest,
    salt: &str,
    secret: &str,
    now: i64,
) -> (out: DocumentStep<LoginData>)
    ensures
        opens_session(out, *stored, *user, salt.spec_bytes(), secret.spec_bytes(), now),
{
    let digest = keyed_digest(salt, user.pwhashed.as_str());
    if !same_text(digest.as_str(), stored.pwhashed.as_str()) {
        return fail("密码不正确！");
    }
    let claims = match Claims::issued(user.username.clone(), now) {
        Some(claims) => claims,
        None => { return fail("生成JWT错误！"); },
    };
    match claims.encode(secret) {
        Some(token) => DocumentStep::Done(
            gen_std_json_response(Some(LoginData { token }), None),
        ),
        None => fail("生成JWT错误！"),
    }
}

/// Logs a user of the document store in by name and password.
pub fn login(event: DocumentReply, user: &LoginRequest, salt: &str, secret: &str, now: i64) -> (out:
    DocumentStep<LoginData>)
    ensures
        match event {
            DocumentReply::Begin => {
                &&& out matches DocumentStep::Ask(DocumentRequest::FindUser { username })
                &&& username@ == user.username@
            },
            DocumentReply::User(stored) => opens_session(
                out,
                stored,
                *user,
                salt.spec_bytes(),
                secret.spec_bytes(),
                now,
            ),
            DocumentReply::Missing => fails_with(out, "用户名不存在！"@),
            _ => fails_with(out, "数据库查询错误！"@),
        },
{
    match event {
        DocumentReply::Begin => DocumentStep::Ask(
            DocumentRequest::FindUser { username: user.username.clone() },
        ),
        DocumentReply::User(stored) => open_session(&stored, user, salt, secret, now),
        DocumentReply::Missing => fail("用户名不存在！"),
        _ => fail("数据库查询错误！"),
    }
}

/// Where a registration stands.
#[derive(Clone, Copy, Debug, PartialEq, Eq, Structural)]
pub enum RegisterState {
    AwaitLookup,
    AwaitCreate,
    Finished,
}

/// Registers a user of the document store. A name that is taken is refused.
/// Else the account is created with the keyed hash of the password under
/// `salt` as its digest.
pub fn raw_register(
    state: RegisterState,
    event: DocumentReply,
    user: &LoginRequest,
    salt: &str,
) -> (out: (RegisterState, DocumentStep<RegisterData>))
    ensures
        match (state, event) {
            (RegisterState::AwaitLookup, DocumentReply::Begin) => {
                &&& out.0 == RegisterState::AwaitLookup
                &&& out.1 matches DocumentStep::Ask(DocumentRequest::FindUser { username })
                &&& username@ == user.username@
            },
            (RegisterState::AwaitLookup, DocumentReply::User(_)) => {
                out.0 is Finished && fails_with(out.1, "用户已存在！"@)
            },
            (RegisterState::AwaitLookup, DocumentReply::Missing) => {
                &&& out.0 == RegisterState::AwaitCreate
                &&& out.1 matches DocumentStep::Ask(
                    DocumentRequest::CreateUser { username, pwhashed },
                )
                &&& username@ == user.username@
                &&& pwhashed@ == hmac_sha256_hex(
                    salt.spec_bytes(),
                    vstd::utf8::encode_utf8(user.pwhashed@),
                )
            },
            (RegisterState::AwaitCreate, DocumentReply::Created) => {
                &&& out.0 is Finished
                &&& out.1 matches DocumentStep::Done(answer)
                &&& answer.success
                &&& answer.errmsg is None
                &&& answer.data matches Some(made)
                &&& made.username@ == user.username@
            },
            (_, _) => out.0 is Finished && fails_with(out.1, "数据库查询错误！"@),
        },
{
    match (state, event) {
        (RegisterState::AwaitLookup, DocumentReply::Begin) => (
            RegisterState::AwaitLookup,
            DocumentStep::Ask(DocumentRequest::FindUser { username: user.username.clone() }),
        ),
        (RegisterState::AwaitLookup, DocumentReply::User(_)) => (
            RegisterState::Finished,
            fail("用户已存在！"),
        ),
        (RegisterState::AwaitLookup, DocumentReply::Missing) => (
            RegisterState::AwaitCreate,
            DocumentStep::Ask(
                DocumentRequest::CreateUser {
                    username: user.username.clone(),
                    pwhashed: keyed_digest(salt, user.pwhashed.as_str()),
                },
            ),
        ),
        (RegisterState::AwaitCreate, DocumentReply::Created) => (
            RegisterState::Finished,
            DocumentStep::Done(
                gen_std_json_response(Some(RegisterData { username: user.username.clone() }), None),
            ),
        ),
        (_, _) => (RegisterState::Finished, fail("数据库查询错误！")),
    }
}

} // verus!
