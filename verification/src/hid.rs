//! The HID transport boundary, and a scripted transport for tests.
//!
//! Device drivers speak to a `HidTransport` rather than to a HID backend, so
//! packet sequences can be checked without hardware.
use vstd::prelude::*;
use std::collections::VecDeque;
use crate::device::HidInterfaceInfo;
use crate::text::{
    byte_hex_upper, decimal_chars, push_byte_hex_upper, push_decimal, str_chars,
    string_from_chars, string_push, string_push_str, trim,
};

verus! {

/// Why a HID operation failed. A backend error keeps the backend's text.
#[derive(Clone, Debug, PartialEq, Eq)]
pub enum HidError {
    Backend(String),
    InvalidPath,
    Transport(String),
}

impl HidError {
    /// The error's message.
    pub fn to_string(&self) -> (text: String)
        ensures
            match self {
                HidError::Backend(m) => text@ == "HID backend error: "@ + m@,
                HidError::InvalidPath => text@ == "HID path contains an embedded NUL byte"@,
                HidError::Transport(m) => text@ == "HID transport error: "@ + m@,
            },
    {
        let mut text = String::new();
        match self {
            HidError::Backend(m) => {
                string_push_str(&mut text, "HID backend error: ");
                string_push_str(&mut text, m.as_str());
            },
            HidError::InvalidPath => {
                string_push_str(&mut text, "HID path contains an embedded NUL byte");
            },
            HidError::Transport(m) => {
                string_push_str(&mut text, "HID transport error: ");
                string_push_str(&mut text, m.as_str());
            },
        }
        text
    }
}

/// Enumeration of HID collections.
pub trait HidDiscovery {
    fn enumerate(&self) -> Result<Vec<HidInterfaceInfo>, HidError>;
}

/// Protocol-agnostic report transport.
pub trait HidTransport {
    /// The HID interface number of the opened collection.
    spec fn spec_interface_number(&self) -> i32;

    fn interface_number(&self) -> (n: i32)
        ensures
            n == self.spec_interface_number(),
    ;

    fn send_feature_report(&mut self, report: &[u8]) -> Result<usize, HidError>;

    fn get_feature_report(&mut self, report: &mut [u8]) -> Result<usize, HidError>;

    fn write(&mut self, report: &[u8]) -> Result<usize, HidError>;

    fn read_timeout(&mut self, report: &mut [u8], timeout_ms: i32) -> Result<usize, HidError>;

    fn report_descriptor(&self) -> Result<Vec<u8>, HidError>;
}

/// A string that is present and not blank, copied.
pub fn non_empty(value: Option<&str>) -> (out: Option<String>)
    ensures
        match value {
            Some(v) => if trim(v@).len() == 0 {
                out is None
            } else {
                out matches Some(s) && s@ == v@
            },
            None => out is None,
        },
{
    match value {
        Some(v) => {
            let chars = str_chars(v);
            let trimmed = crate::text::trim_range(&chars, 0, chars.len());
            assert(chars@.subrange(0, chars@.len() as int) =~= chars@);
            if trimmed.len() == 0 {
                None
            } else {
                Some(string_from_chars(&chars))
            }
        },
        None => None,
    }
}

/// Bytes as Rust prints them with `{:02X?}`: `[07, 0A]`.
pub open spec fn hex_list_items(bytes: Seq<u8>) -> Seq<char>
    decreases bytes.len(),
{
    if bytes.len() == 0 {
        seq![]
    } else if bytes.len() == 1 {
        byte_hex_upper(bytes[0])
    } else {
        hex_list_items(bytes.drop_last()) + ", "@ + byte_hex_upper(bytes.last())
    }
}

pub(crate) fn push_hex_list(text: &mut String, bytes: &[u8])
    ensures
        final(text)@ == old(text)@ + seq!['['] + hex_list_items(bytes@) + seq![']'],
{
    let ghost start = text@;
    string_push(text, '[');
    let mut i: usize = 0;
    while i < bytes.len()
        invariant
            i <= bytes@.len(),
            text@ == start + seq!['['] + hex_list_items(bytes@.take(i as int)),
        decreases bytes.len() - i,
    {
        if i != 0 {
            string_push_str(text, ", ");
        }
        push_byte_hex_upper(text, bytes[i]);
        i += 1;
        assert(bytes@.take(i as int).drop_last() =~= bytes@.take(i - 1));
    }
    assert(bytes@.take(i as int) =~= bytes@);
    string_push(text, ']');
}

/// A discovery that returns a fixed list of collections.
pub struct MockHidDiscovery {
    interfaces: Vec<HidInterfaceInfo>,
}

impl MockHidDiscovery {
    /// The collections that `enumerate` returns.
    pub closed spec fn spec_interfaces(&self) -> Seq<HidInterfaceInfo> {
        self.interfaces@
    }

    pub fn new(interfaces: Vec<HidInterfaceInfo>) -> (discovery: Self)
        ensures
            discovery.spec_interfaces() == interfaces@,
    {
        MockHidDiscovery { interfaces }
    }
}

impl HidDiscovery for MockHidDiscovery {
    fn enumerate(&self) -> (res: Result<Vec<HidInterfaceInfo>, HidError>)
        ensures
            res matches Ok(v) && v@ == self.spec_interfaces(),
    {
        let mut copy: Vec<HidInterfaceInfo> = Vec::new();
        let mut i: usize = 0;
        while i < self.interfaces.len()
            invariant
                i <= self.interfaces@.len(),
                copy@ == self.interfaces@.take(i as int),
            decreases self.interfaces.len() - i,
        {
            copy.push(self.interfaces[i].duplicate());
            i += 1;
            assert(copy@ =~= self.interfaces@.take(i as int));
        }
        assert(self.interfaces@.take(i as int) =~= self.interfaces@);
        Ok(copy)
    }
}

/// Scriptable transport: queued expected transmissions and queued
/// responses, consumed in order.
#[derive(Debug)]
pub struct MockHidTransport {
    interface_number: i32,
    expected_feature_tx: VecDeque<Vec<u8>>,
    feature_rx: VecDeque<Vec<u8>>,
    expected_output_tx: VecDeque<Vec<u8>>,
    input_rx: VecDeque<Vec<u8>>,
}

pub open spec fn queue_view(q: Seq<Vec<u8>>) -> Seq<Seq<u8>> {
    q.map_values(|v: Vec<u8>| v@)
}

/// The outcome of checking a transmission against the next expected one.
pub open spec fn tx_message(expected: Seq<u8>, actual: Seq<u8>) -> Seq<char> {
    "report mismatch: expected "@ + seq!['['] + hex_list_items(expected) + seq![']'] + ", got "@
        + seq!['['] + hex_list_items(actual) + seq![']']
}

fn copy_to_vec(bytes: &[u8]) -> (v: Vec<u8>)
    ensures
        v@ == bytes@,
{
    let mut v: Vec<u8> = Vec::new();
    let mut i: usize = 0;
    while i < bytes.len()
        invariant
            i <= bytes@.len(),
            v@ == bytes@.take(i as int),
        decreases bytes.len() - i,
    {
        v.push(bytes[i]);
        i += 1;
        assert(v@ =~= bytes@.take(i as int));
    }
    assert(bytes@.take(i as int) =~= bytes@);
    v
}

fn same_bytes(a: &[u8], b: &[u8]) -> (same: bool)
    ensures
        same == (a@ == b@),
{
    if a.len() != b.len() {
        return false;
    }
    let mut i: usize = 0;
    while i < a.len()
        invariant
            a@.len() == b@.len(),
            i <= a@.len(),
            forall|j: int| 0 <= j < i ==> a@[j] == b@[j],
        decreases a.len() - i,
    {
        if a[i] != b[i] {
            return false;
        }
        i += 1;
    }
    assert(a@ =~= b@);
    true
}

fn transport_error(message: &str) -> (e: HidError)
    ensures
        e matches HidError::Transport(m) && m@ == message@,
{
    let mut text = String::new();
    string_push_str(&mut text, message);
    HidError::Transport(text)
}

impl MockHidTransport {
    pub closed spec fn expected_feature(&self) -> Seq<Seq<u8>> {
        queue_view(self.expected_feature_tx@)
    }

    pub closed spec fn feature_responses(&self) -> Seq<Seq<u8>> {
        queue_view(self.feature_rx@)
    }

    pub closed spec fn expected_output(&self) -> Seq<Seq<u8>> {
        queue_view(self.expected_output_tx@)
    }

    pub closed spec fn input_reports(&self) -> Seq<Seq<u8>> {
        queue_view(self.input_rx@)
    }

    pub fn new(interface_number: i32) -> (transport: Self)
        ensures
            transport.spec_interface_number() == interface_number,
            transport.expected_feature() == Seq::<Seq<u8>>::empty(),
            transport.feature_responses() == Seq::<Seq<u8>>::empty(),
            transport.expected_output() == Seq::<Seq<u8>>::empty(),
            transport.input_reports() == Seq::<Seq<u8>>::empty(),
    {
        let t = MockHidTransport {
            interface_number,
            expected_feature_tx: VecDeque::new(),
            feature_rx: VecDeque::new(),
            expected_output_tx: VecDeque::new(),
            input_rx: VecDeque::new(),
        };
        assert(t.expected_feature() =~= Seq::<Seq<u8>>::empty());
        assert(t.feature_responses() =~= Seq::<Seq<u8>>::empty());
        assert(t.expected_output() =~= Seq::<Seq<u8>>::empty());
        assert(t.input_reports() =~= Seq::<Seq<u8>>::empty());
        t
    }

    /// Expect `report` as the next feature report sent.
    pub fn expect_feature_report(&mut self, report: &[u8])
        ensures
            final(self).expected_feature() == old(self).expected_feature().push(report@),
            final(self).feature_responses() == old(self).feature_responses(),
            final(self).expected_output() == old(self).expected_output(),
            final(self).input_reports() == old(self).input_reports(),
            final(self).spec_interface_number() == old(self).spec_interface_number(),
    {
        let v = copy_to_vec(report);
        self.expected_feature_tx.push_back(v);
        assert(self.expected_feature() =~= old(self).expected_feature().push(report@));
    }

    /// Queue `report` as the next feature report received.
    pub fn queue_feature_response(&mut self, report: &[u8])
        ensures
            final(self).feature_responses() == old(self).feature_responses().push(report@),
            final(self).expected_feature() == old(self).expected_feature(),
            final(self).expected_output() == old(self).expected_output(),
            final(self).input_reports() == old(self).input_reports(),
            final(self).spec_interface_number() == old(self).spec_interface_number(),
    {
        let v = copy_to_vec(report);
        self.feature_rx.push_back(v);
        assert(self.feature_responses() =~= old(self).feature_responses().push(report@));
    }

    /// Expect `report` as the next output report written.
    pub fn expect_output_report(&mut self, report: &[u8])
        ensures
            final(self).expected_output() == old(self).expected_output().push(report@),
            final(self).expected_feature() == old(self).expected_feature(),
            final(self).feature_responses() == old(self).feature_responses(),
            final(self).input_reports() == old(self).input_reports(),
            final(self).spec_interface_number() == old(self).spec_interface_number(),
    {
        let v = copy_to_vec(report);
        self.expected_output_tx.push_back(v);
        assert(self.expected_output() =~= old(self).expected_output().push(report@));
    }

    /// Queue `report` as the next input report read.
    pub fn queue_input_report(&mut self, report: &[u8])
        ensures
            final(self).input_reports() == old(self).input_reports().push(report@),
            final(self).expected_feature() == old(self).expected_feature(),
            final(self).feature_responses() == old(self).feature_responses(),
            final(self).expected_output() == old(self).expected_output(),
            final(self).spec_interface_number() == old(self).spec_interface_number(),
    {
        let v = copy_to_vec(report);
        self.input_rx.push_back(v);
        assert(self.input_reports() =~= old(self).input_reports().push(report@));
    }

    /// Check that the script was used up: every expected report was sent
    /// and every queued response was read. An unfinished script is
    /// reported as an `Err` naming it, not as a panic, so a test states the
    /// check with `.unwrap()` and a script left over fails that test.
    pub fn assert_drained(&self) -> (res: Result<(), HidError>)
        ensures
            res is Ok <==> (self.expected_feature().len() == 0 && self.feature_responses().len() == 0
                && self.expected_output().len() == 0 && self.input_reports().len() == 0),
    {
        if self.expected_feature_tx.len() == 0 && self.feature_rx.len() == 0
            && self.expected_output_tx.len() == 0 && self.input_rx.len() == 0 {
            Ok(())
        } else {
            Err(transport_error("mock HID script was not fully consumed"))
        }
    }

    fn check_tx(queue: &mut VecDeque<Vec<u8>>, actual: &[u8]) -> (res: Result<usize, HidError>)
        ensures
            queue_view(old(queue)@).len() == 0 ==> (res matches Err(HidError::Transport(m)) && m@
                == "unexpected report: no transmission was queued"@) && final(queue)@ == old(queue)@,
            queue_view(old(queue)@).len() > 0 ==> queue_view(final(queue)@) == queue_view(
                old(queue)@,
            ).drop_first() && if queue_view(old(queue)@)[0] == actual@ {
                res == Ok::<usize, HidError>(actual@.len() as usize)
            } else {
                res matches Err(HidError::Transport(m)) && m@ == tx_message(
                    queue_view(old(queue)@)[0],
                    actual@,
                )
            },
    {
        let expected = match queue.pop_front() {
            Some(expected) => expected,
            None => {
                return Err(transport_error("unexpected report: no transmission was queued"));
            },
        };
        assert(queue_view(queue@) =~= queue_view(old(queue)@).drop_first());
        if !same_bytes(expected.as_slice(), actual) {
            let mut text = String::new();
            string_push_str(&mut text, "report mismatch: expected ");
            push_hex_list(&mut text, expected.as_slice());
            string_push_str(&mut text, ", got ");
            push_hex_list(&mut text, actual);
            return Err(HidError::Transport(text));
        }
        Ok(actual.len())
    }

    fn receive(queue: &mut VecDeque<Vec<u8>>, output: &mut [u8]) -> (res: Result<usize, HidError>)
        ensures
            final(output)@.len() == old(output)@.len(),
            queue_view(old(queue)@).len() == 0 ==> (res matches Err(HidError::Transport(m)) && m@
                == "no mock response is queued"@) && final(queue)@ == old(queue)@ && final(output)@
                == old(output)@,
            queue_view(old(queue)@).len() > 0 ==> {
                let response = queue_view(old(queue)@)[0];
                &&& queue_view(final(queue)@) == queue_view(old(queue)@).drop_first()
                &&& response.len() > old(output)@.len() ==> (res matches Err(HidError::Transport(m))
                    && m@ == "mock response has "@ + decimal_chars(response.len())
                    + " bytes but buffer has "@ + decimal_chars(old(output)@.len()))
                    && final(output)@ == old(output)@
                &&& response.len() <= old(output)@.len() ==> res == Ok::<usize, HidError>(
                    response.len() as usize,
                ) && final(output)@ == response + old(output)@.skip(response.len() as int)
            },
    {
        let response = match queue.pop_front() {
            Some(response) => response,
            None => {
                return Err(transport_error("no mock response is queued"));
            },
        };
        assert(queue_view(queue@) =~= queue_view(old(queue)@).drop_first());
        if response.len() > output.len() {
            let mut text = String::new();
            string_push_str(&mut text, "mock response has ");
            push_decimal(&mut text, response.len() as u64);
            string_push_str(&mut text, " bytes but buffer has ");
            push_decimal(&mut text, output.len() as u64);
            return Err(HidError::Transport(text));
        }
        let mut i: usize = 0;
        while i < response.len()
            invariant
                response@.len() <= output@.len(),
                output@.len() == old(output)@.len(),
                i <= response@.len(),
                forall|j: int| 0 <= j < i ==> output@[j] == response@[j],
                forall|j: int| i <= j < output@.len() ==> output@[j] == old(output)@[j],
            decreases response.len() - i,
        {
            output[i] = response[i];
            i += 1;
        }
        assert(output@ =~= response@ + old(output)@.skip(response@.len() as int));
        Ok(response.len())
    }
}

/// A transmission consumes the next expected report of its queue: it
/// succeeds with the report's length when the report is the expected one.
pub open spec fn consumes_expected(
    before: Seq<Seq<u8>>,
    after: Seq<Seq<u8>>,
    report: Seq<u8>,
    res: Result<usize, HidError>,
) -> bool {
    if before.len() == 0 {
        res is Err && after == before
    } else {
        after == before.drop_first() && (before[0] == report <==> res is Ok) && (res matches Ok(n)
            ==> n == report.len() as usize)
    }
}

/// A read takes the next queued response into the front of the buffer
/// when it fits.
pub open spec fn delivers_response(
    before: Seq<Seq<u8>>,
    after: Seq<Seq<u8>>,
    buffer_before: Seq<u8>,
    buffer_after: Seq<u8>,
    res: Result<usize, HidError>,
) -> bool {
    if before.len() == 0 {
        res is Err && after == before && buffer_after == buffer_before
    } else {
        &&& after == before.drop_first()
        &&& before[0].len() > buffer_before.len() ==> res is Err && buffer_after == buffer_before
        &&& before[0].len() <= buffer_before.len() ==> res == Ok::<usize, HidError>(before[0].len() as usize)
            && buffer_after == before[0] + buffer_before.skip(before[0].len() as int)
    }
}

impl HidTransport for MockHidTransport {
    closed spec fn spec_interface_number(&self) -> i32 {
        self.interface_number
    }

    fn interface_number(&self) -> (n: i32)
        ensures
            n == self.spec_interface_number(),
    {
        self.interface_number
    }

    fn send_feature_report(&mut self, report: &[u8]) -> (res: Result<usize, HidError>)
        ensures
            consumes_expected(old(self).expected_feature(), final(self).expected_feature(), report@, res),
            final(self).feature_responses() == old(self).feature_responses(),
            final(self).expected_output() == old(self).expected_output(),
            final(self).input_reports() == old(self).input_reports(),
            final(self).spec_interface_number() == old(self).spec_interface_number(),
    {
        MockHidTransport::check_tx(&mut self.expected_feature_tx, report)
    }

    fn get_feature_report(&mut self, report: &mut [u8]) -> (res: Result<usize, HidError>)
        ensures
            delivers_response(
                old(self).feature_responses(),
                final(self).feature_responses(),
                old(report)@,
                final(report)@,
                res,
            ),
            final(self).expected_feature() == old(self).expected_feature(),
            final(self).expected_output() == old(self).expected_output(),
            final(self).input_reports() == old(self).input_reports(),
            final(self).spec_interface_number() == old(self).spec_interface_number(),
    {
        MockHidTransport::receive(&mut self.feature_rx, report)
    }

    fn write(&mut self, report: &[u8]) -> (res: Result<usize, HidError>)
        ensures
            consumes_expected(old(self).expected_output(), final(self).expected_output(), report@, res),
            final(self).expected_feature() == old(self).expected_feature(),
            final(self).feature_responses() == old(self).feature_responses(),
            final(self).input_reports() == old(self).input_reports(),
            final(self).spec_interface_number() == old(self).spec_interface_number(),
    {
        MockHidTransport::check_tx(&mut self.expected_output_tx, report)
    }

    fn read_timeout(&mut self, report: &mut [u8], timeout_ms: i32) -> (res: Result<usize, HidError>)
        ensures
            delivers_response(old(self).input_reports(), final(self).input_reports(), old(report)@, final(report)@, res),
            final(self).expected_feature() == old(self).expected_feature(),
            final(self).feature_responses() == old(self).feature_responses(),
            final(self).expected_output() == old(self).expected_output(),
            final(self).spec_interface_number() == old(self).spec_interface_number(),
    {
        MockHidTransport::receive(&mut self.input_rx, report)
    }

    fn report_descriptor(&self) -> (res: Result<Vec<u8>, HidError>)
        ensures
            res matches Err(HidError::Transport(m)) && m@ == "no mock report descriptor is configured"@,
    {
        Err(transport_error("no mock report descriptor is configured"))
    }
}

} // verus!
