//! What holds of every request and every configuration.

use crate::clock::{is_calendar_instant, is_fresh};
use crate::config::ConfigView;
use crate::decimal::{decimal, law_decimal_reads_back, lemma_decimal_has_no_colon};
use crate::digest::hmac_sha256;
use crate::encoding::lemma_hex_lower_injective;
use crate::guard::{decided, examined, extracted, DecisionView, FieldView, RequestView};
use crate::signer::{base_string, labelled, signature_text, tag_text};
use crate::text::lemma_encoding_tells_text;
use vstd::prelude::*;
use vstd::utf8::*;

verus! {

/// The octets that are authenticated for a request sent at `timestamp` with
/// `body`.
pub open spec fn message(config: ConfigView, timestamp: int, body: Seq<char>) -> Seq<u8> {
    encode_utf8(base_string(config.version_tag, timestamp, body))
}

/// Whether `request` carries a proof and presents in it the signature
/// computed for its time of sending and its body.
pub open spec fn well_signed(config: ConfigView, request: RequestView) -> bool {
    &&& extracted(request) is Ok
    &&& valid_utf8(extracted(request)->Ok_0.raw_body)
    &&& extracted(request)->Ok_0.presented_signature == signature_text(
        config,
        extracted(request)->Ok_0.timestamp,
        decode_utf8(extracted(request)->Ok_0.raw_body),
    )
}

/// The request that a sender makes of `body` at `timestamp`: the signature
/// for both in one field, the time in decimal in the other.
pub open spec fn signed_request(config: ConfigView, timestamp: int, body: Seq<char>) -> RequestView {
    RequestView {
        signature: FieldView::Text(signature_text(config, timestamp, body)),
        timestamp: FieldView::Text(decimal(timestamp)),
        body: Some(encode_utf8(body)),
    }
}

/// The signature is a function of configuration, time and body: equal
/// inputs give equal signatures, whenever and wherever they are computed.
pub proof fn law_signature_is_determined(
    first: ConfigView,
    first_time: int,
    first_body: Seq<char>,
    second: ConfigView,
    second_time: int,
    second_body: Seq<char>,
)
    requires
        first.version_tag == second.version_tag,
        first.shared_secret == second.shared_secret,
        first_time == second_time,
        first_body == second_body,
    ensures
        signature_text(first, first_time, first_body) == signature_text(
            second,
            second_time,
            second_body,
        ),
{
}

/// Under one version tag, a signature tells the tag it was made from: two
/// signatures are equal only where the two tags are.
pub proof fn law_signature_tells_tag(version_tag: Seq<char>, first: Seq<u8>, second: Seq<u8>)
    ensures
        labelled(version_tag, crate::encoding::hex_lower(first)) == labelled(
            version_tag,
            crate::encoding::hex_lower(second),
        ) <==> first == second,
{
    let one = labelled(version_tag, crate::encoding::hex_lower(first));
    let other = labelled(version_tag, crate::encoding::hex_lower(second));
    if one == other {
        let cut: int = version_tag.len() as int + 1;
        assert(one.skip(cut) =~= crate::encoding::hex_lower(first));
        assert(other.skip(cut) =~= crate::encoding::hex_lower(second));
        lemma_hex_lower_injective(first, second);
    }
}

/// Under one version tag, the text that is authenticated tells the time of
/// sending and the body: two such texts are equal only where both are.
pub proof fn law_base_string_tells_time_and_body(
    version_tag: Seq<char>,
    first_time: int,
    first_body: Seq<char>,
    second_time: int,
    second_body: Seq<char>,
)
    requires
        i64::MIN <= first_time <= i64::MAX,
        i64::MIN <= second_time <= i64::MAX,
        base_string(version_tag, first_time, first_body) == base_string(
            version_tag,
            second_time,
            second_body,
        ),
    ensures
        first_time == second_time,
        first_body == second_body,
{
    let one = base_string(version_tag, first_time, first_body);
    let other = base_string(version_tag, second_time, second_body);
    let a = decimal(first_time);
    let b = decimal(second_time);
    let a_len: int = a.len() as int;
    let b_len: int = b.len() as int;
    let cut: int = version_tag.len() as int + 1;
    lemma_decimal_has_no_colon(first_time);
    lemma_decimal_has_no_colon(second_time);
    assert(one.len() == cut + a.len() + 1 + first_body.len());
    assert(other.len() == cut + b.len() + 1 + second_body.len());
    if a_len < b_len {
        assert(one[cut + a_len] == ':');
        assert(other[cut + a_len] == b[a_len]);
    }
    if b_len < a_len {
        assert(other[cut + b_len] == ':');
        assert(one[cut + b_len] == a[b_len]);
    }
    assert(a.len() == b.len());
    assert forall|i: int| 0 <= i < a.len() implies a[i] == b[i] by {
        assert(one[cut + i] == a[i]);
        assert(other[cut + i] == b[i]);
    }
    assert(a =~= b);
    law_decimal_reads_back(first_time);
    law_decimal_reads_back(second_time);
    assert forall|i: int| 0 <= i < first_body.len() implies first_body[i] == second_body[i] by {
        assert(one[cut + a_len + 1 + i] == first_body[i]);
        assert(other[cut + b_len + 1 + i] == second_body[i]);
    }
    assert(first_body =~= second_body);
}

/// Under one configuration, two requests that differ in the time of sending
/// or in the body have the same signature only where the keyed hash gives
/// two different messages the same tag.
pub proof fn law_signature_binds_time_and_body(
    config: ConfigView,
    first_time: int,
    first_body: Seq<char>,
    second_time: int,
    second_body: Seq<char>,
)
    requires
        i64::MIN <= first_time <= i64::MAX,
        i64::MIN <= second_time <= i64::MAX,
        first_time != second_time || first_body != second_body,
    ensures
        message(config, first_time, first_body) != message(config, second_time, second_body),
        signature_text(config, first_time, first_body) == signature_text(
            config,
            second_time,
            second_body,
        ) ==> hmac_sha256(config.shared_secret, message(config, first_time, first_body))
            == hmac_sha256(config.shared_secret, message(config, second_time, second_body)),
{
    let one = base_string(config.version_tag, first_time, first_body);
    let other = base_string(config.version_tag, second_time, second_body);
    if one == other {
        law_base_string_tells_time_and_body(
            config.version_tag,
            first_time,
            first_body,
            second_time,
            second_body,
        );
    }
    lemma_encoding_tells_text(one, other);
    law_signature_tells_tag(
        config.version_tag,
        hmac_sha256(config.shared_secret, message(config, first_time, first_body)),
        hmac_sha256(config.shared_secret, message(config, second_time, second_body)),
    );
}

/// The request that a sender makes is accepted at every present that lies
/// within the window around its time of sending, whatever its body.
pub proof fn law_signed_request_is_accepted(
    config: ConfigView,
    timestamp: int,
    body: Seq<char>,
    now: int,
)
    requires
        is_calendar_instant(timestamp),
        is_fresh(now, timestamp),
    ensures
        decided(config, signed_request(config, timestamp, body), now) == DecisionView::Accepted(
            encode_utf8(body),
        ),
{
    law_decimal_reads_back(timestamp);
    encode_utf8_valid_utf8(body);
    encode_utf8_decode_utf8(body);
}

/// A request that presents the signature computed for it, at a time of
/// sending that the calendar names and that lies within the window around
/// the present, is accepted, and its body is handed on as it arrived.
pub proof fn law_fresh_and_well_signed_is_accepted(
    config: ConfigView,
    request: RequestView,
    now: int,
)
    requires
        well_signed(config, request),
        is_calendar_instant(extracted(request)->Ok_0.timestamp),
        is_fresh(now, extracted(request)->Ok_0.timestamp),
    ensures
        decided(config, request, now) == DecisionView::Accepted(request.body->Some_0),
{
}

/// A request whose time of sending lies more than the window before or
/// after the present is rejected, whatever it presents.
pub proof fn law_stale_is_rejected(config: ConfigView, request: RequestView, now: int)
    requires
        extracted(request) is Ok,
        !is_fresh(now, extracted(request)->Ok_0.timestamp),
    ensures
        decided(config, request, now) is Rejected,
{
}

/// A request without a header field that is required is rejected.
pub proof fn law_missing_header_is_rejected(config: ConfigView, request: RequestView, now: int)
    requires
        request.signature is Absent || request.timestamp is Absent,
    ensures
        decided(config, request, now) is Rejected,
{
}

/// A request that does not present the signature computed for it is
/// rejected, at every present.
pub proof fn law_mismatch_is_rejected(config: ConfigView, request: RequestView, now: int)
    requires
        !well_signed(config, request),
    ensures
        decided(config, request, now) is Rejected,
{
}

/// A request whose body is not UTF-8 is rejected, whatever its header
/// fields hold.
pub proof fn law_undecodable_body_is_rejected(config: ConfigView, request: RequestView, now: int)
    requires
        request.body is Some,
        !valid_utf8(request.body->Some_0),
    ensures
        decided(config, request, now) is Rejected,
{
}

/// The signature binds the body. Take the request that a sender makes of
/// `body` and put `altered`, another text, in the body's place, the header
/// fields left as they are. The messages of the two differ, and the altered
/// request is accepted only where the keyed hash gives both the same tag.
pub proof fn law_altered_body_is_rejected(
    config: ConfigView,
    timestamp: int,
    body: Seq<char>,
    altered: Seq<char>,
    now: int,
)
    requires
        i64::MIN <= timestamp <= i64::MAX,
        altered != body,
    ensures
        message(config, timestamp, altered) != message(config, timestamp, body),
        decided(
            config,
            (RequestView {
                body: Some(encode_utf8(altered)),
                ..signed_request(config, timestamp, body)
            }),
            now,
        ) is Accepted ==> hmac_sha256(config.shared_secret, message(config, timestamp, altered))
            == hmac_sha256(config.shared_secret, message(config, timestamp, body)),
{
    law_decimal_reads_back(timestamp);
    encode_utf8_valid_utf8(altered);
    encode_utf8_decode_utf8(altered);
    law_signature_binds_time_and_body(config, timestamp, altered, timestamp, body);
}

} // verus!
