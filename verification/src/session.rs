//! The execution session: one instance per call.
//!
//! A session captures the script and the optional JSON payload as owned byte
//! buffers, answers the guest's five entry points (length queries, bounded
//! copies, and a single result delivery), and finally classifies the call's
//! outcome. Every decision is a function of the session's state and the
//! reported run status alone, so identical calls produce identical outcomes
//! and nothing survives from one call into the next.

use vstd::prelude::*;

use vstd::slice::slice_to_vec;
use vstd::string::StringSliceAdditionalSpecFns;
use vstd::utf8::{decode_utf8, valid_utf8};

use crate::errors::{ErrorModel, ExecutionError, ResourceLimitError};
use crate::region::{spec_written, GuestRegion};
use crate::slot::{Outcome, OutcomeModel, ResultSlot};
use crate::transcode::{decode_utf8_text, json_accepted, json_is_valid};

verus! {

/// What the runtime reports about how the RUN step of one call ended.
pub struct RunStatus {
    /// The guest's entry point returned without trapping.
    pub completed: bool,
    /// A deadline checkpoint found the tick budget spent: the time ceiling
    /// aborted the call.
    pub time_exhausted: bool,
    /// A guest memory-growth request was refused by the memory ceiling.
    pub memory_refused: bool,
    /// The runtime's description of the trap, for a run that did not
    /// complete for any other reason.
    pub trap_message: String,
}

/// The mathematical value of a [`RunStatus`].
pub struct RunStatusModel {
    pub completed: bool,
    pub time_exhausted: bool,
    pub memory_refused: bool,
    pub trap_message: Seq<char>,
}

impl View for RunStatus {
    type V = RunStatusModel;

    open spec fn view(&self) -> RunStatusModel {
        RunStatusModel {
            completed: self.completed,
            time_exhausted: self.time_exhausted,
            memory_refused: self.memory_refused,
            trap_message: self.trap_message@,
        }
    }
}

/// The mathematical state of one call: the captured buffers, the result
/// slot, and the first host-side fault recorded during the call.
pub struct SessionModel {
    pub script: Seq<u8>,
    pub data: Seq<u8>,
    pub slot: Option<OutcomeModel>,
    pub fault: Option<ErrorModel>,
}

/// The fresh state a call starts from: captured buffers, an empty slot, and
/// no fault.
pub open spec fn spec_fresh_session(script: Seq<u8>, data: Seq<u8>) -> SessionModel {
    SessionModel { script: script, data: data, slot: None, fault: None }
}

/// The message of the fault recorded when the guest delivers a result twice.
pub open spec fn spec_double_delivery_msg() -> Seq<char> {
    "result delivered more than once"@
}

/// The message of the fault recorded when a delivered result is not UTF-8.
pub open spec fn spec_invalid_utf8_msg() -> Seq<char> {
    "result bytes are not valid UTF-8"@
}

/// The message of the failure synthesized when the guest completes without
/// delivering any result.
pub open spec fn spec_no_result_msg() -> Seq<char> {
    "guest completed without delivering a result"@
}

/// The message of the fault recorded when any entry point is invoked after
/// result delivery.
pub open spec fn spec_entry_after_delivery_msg() -> Seq<char> {
    "entry point invoked after result delivery"@
}

/// The session state after a non-delivery entry point: unchanged, unless the
/// result was already delivered — result delivery must be the last host
/// interaction of a call, so a later invocation is a contract violation by
/// the guest, recorded as the call's fault (only the first fault is kept).
pub open spec fn spec_entry_after_delivery(m: SessionModel) -> SessionModel {
    if m.slot is Some && m.fault is None {
        SessionModel {
            script: m.script,
            data: m.data,
            slot: m.slot,
            fault: Some(ErrorModel::GuestFault(spec_entry_after_delivery_msg())),
        }
    } else {
        m
    }
}

/// One result-delivery event against a session state: the state afterwards
/// and the host's reply to the guest.
///
/// A second delivery is a contract violation and faults the call; an empty
/// delivery is the no-output outcome; bytes that are not UTF-8 fault the
/// call as a transcoding error; otherwise the decoded text fills the slot as
/// success or failure according to the error flag. Only the first fault of a
/// call is kept.
pub open spec fn spec_deliver(m: SessionModel, bytes: Seq<u8>, error_flag: bool) -> (
    SessionModel,
    Result<(), ErrorModel>,
) {
    if m.slot is Some {
        let e = ErrorModel::GuestFault(spec_double_delivery_msg());
        (
            SessionModel {
                script: m.script,
                data: m.data,
                slot: m.slot,
                fault: if m.fault is None {
                    Some(e)
                } else {
                    m.fault
                },
            },
            Err(e),
        )
    } else if bytes.len() == 0 {
        (
            SessionModel {
                script: m.script,
                data: m.data,
                slot: Some(OutcomeModel::NoOutput),
                fault: m.fault,
            },
            Ok(()),
        )
    } else if !valid_utf8(bytes) {
        let e = ErrorModel::Transcoding(spec_invalid_utf8_msg());
        (
            SessionModel {
                script: m.script,
                data: m.data,
                slot: m.slot,
                fault: if m.fault is None {
                    Some(e)
                } else {
                    m.fault
                },
            },
            Err(e),
        )
    } else {
        let text = decode_utf8(bytes);
        let out = if error_flag {
            OutcomeModel::Failure(text)
        } else {
            OutcomeModel::Success(text)
        };
        (
            SessionModel { script: m.script, data: m.data, slot: Some(out), fault: m.fault },
            Ok(()),
        )
    }
}

/// The classified outcome of one finished call.
///
/// A fault the host recorded during the call (a transcoding error or a
/// protocol violation) takes precedence, since it is what aborted the run.
/// An aborted run is then classified by its structured cause — out of
/// memory, then time limit, then a plain guest fault. A completed run yields
/// what the slot holds: success text, the script's own error, or no output;
/// a completed run that never delivered is itself a guest fault.
pub open spec fn spec_collect(m: SessionModel, st: RunStatusModel) -> Result<
    Option<Seq<char>>,
    ErrorModel,
> {
    match m.fault {
        Some(e) => Err(e),
        None => {
            if !st.completed && st.memory_refused {
                Err(ErrorModel::ResourceLimit(ResourceLimitError::OutOfMemory))
            } else if !st.completed && st.time_exhausted {
                Err(ErrorModel::ResourceLimit(ResourceLimitError::TimeLimitExceeded))
            } else if !st.completed {
                Err(ErrorModel::GuestFault(st.trap_message))
            } else {
                match m.slot {
                    Some(OutcomeModel::Success(text)) => Ok(Some(text)),
                    Some(OutcomeModel::Failure(msg)) => Err(ErrorModel::Script(msg)),
                    Some(OutcomeModel::NoOutput) => Ok(None),
                    None => Err(ErrorModel::GuestFault(spec_no_result_msg())),
                }
            }
        },
    }
}

/// The mathematical value of a call's reply to the caller.
pub open spec fn spec_call_reply(r: Result<Option<String>, ExecutionError>) -> Result<
    Option<Seq<char>>,
    ErrorModel,
> {
    match r {
        Ok(None) => Ok(None),
        Ok(Some(s)) => Ok(Some(s@)),
        Err(e) => Err(e@),
    }
}

/// The mathematical value of a delivery's reply to the guest.
pub open spec fn spec_unit_reply(r: Result<(), ExecutionError>) -> Result<(), ErrorModel> {
    match r {
        Ok(u) => Ok(u),
        Err(e) => Err(e@),
    }
}

/// One execution session: the per-call state behind the host's entry
/// points. Created fresh for every call and consumed by [`Session::collect`];
/// no state survives into a later call.
pub struct Session {
    script: Vec<u8>,
    data: Vec<u8>,
    slot: ResultSlot,
    fault: Option<ExecutionError>,
}

impl View for Session {
    type V = SessionModel;

    closed spec fn view(&self) -> SessionModel {
        SessionModel {
            script: self.script@,
            data: self.data@,
            slot: self.slot@,
            fault: match self.fault {
                None => None,
                Some(e) => Some(e@),
            },
        }
    }
}

/// The byte sequence of an optional payload: empty when absent.
pub open spec fn spec_payload_bytes(data: Option<&str>) -> Seq<u8> {
    match data {
        None => Seq::empty(),
        Some(d) => d.spec_bytes(),
    }
}

impl Session {
    /// Buffer lengths fit the 32-bit wire protocol.
    pub closed spec fn wf(self) -> bool {
        self@.script.len() <= i32::MAX && self@.data.len() <= i32::MAX
    }

    /// INIT: captures the script and the optional JSON payload as owned
    /// byte buffers for one fresh call.
    ///
    /// Rejected with a transcoding error: a payload that is not one valid
    /// JSON document. Rejected with a defensive configuration error: a
    /// buffer whose length does not fit the 32-bit wire protocol.
    pub fn new(script: &str, data: Option<&str>) -> (r: Result<Session, ExecutionError>)
        ensures
            r is Ok <==> {
                &&& script.spec_bytes().len() <= i32::MAX
                &&& spec_payload_bytes(data).len() <= i32::MAX
                &&& (data is Some ==> json_accepted(spec_payload_bytes(data)))
            },
            r matches Ok(s) ==> s@ == spec_fresh_session(
                script.spec_bytes(),
                spec_payload_bytes(data),
            ) && s.wf(),
            script.spec_bytes().len() > i32::MAX ==> (r matches Err(e) && e is Configuration),
            script.spec_bytes().len() <= i32::MAX && spec_payload_bytes(data).len() > i32::MAX
                ==> (r matches Err(e) && e is Configuration),
            script.spec_bytes().len() <= i32::MAX && spec_payload_bytes(data).len() <= i32::MAX
                && data is Some && !json_accepted(spec_payload_bytes(data)) ==> (r matches Err(e)
                && e@ == ErrorModel::Transcoding("data payload is not valid JSON"@)),
    {
        let script_bytes = slice_to_vec(script.as_bytes());
        if script_bytes.len() > i32::MAX as usize {
            return Err(ExecutionError::Configuration(
                "script length exceeds the 32-bit wire protocol".to_owned(),
            ));
        }
        let data_bytes: Vec<u8> = match data {
            None => Vec::new(),
            Some(d) => slice_to_vec(d.as_bytes()),
        };
        if data_bytes.len() > i32::MAX as usize {
            return Err(ExecutionError::Configuration(
                "data length exceeds the 32-bit wire protocol".to_owned(),
            ));
        }
        if data.is_some() {
            if !json_is_valid(data_bytes.as_slice()) {
                return Err(ExecutionError::Transcoding(
                    "data payload is not valid JSON".to_owned(),
                ));
            }
        }
        Ok(Session { script: script_bytes, data: data_bytes, slot: ResultSlot::new(), fault: None })
    }

    /// Records the contract violation of a non-delivery entry point invoked
    /// after result delivery, exactly as [`spec_entry_after_delivery`] says.
    fn note_entry_point(&mut self)
        ensures
            final(self)@ == spec_entry_after_delivery(old(self)@),
            final(self).wf() == old(self).wf(),
    {
        if self.slot.is_written() && self.fault.is_none() {
            self.fault = Some(ExecutionError::GuestFault(
                "entry point invoked after result delivery".to_owned(),
            ));
        }
    }

    /// Entry point: script length query. Invoked after result delivery it
    /// still answers, but the violation is recorded and supersedes the
    /// call's outcome at collection.
    pub fn script_size(&mut self) -> (n: i32)
        requires
            old(self).wf(),
        ensures
            n == old(self)@.script.len(),
            final(self)@ == spec_entry_after_delivery(old(self)@),
            final(self).wf(),
    {
        self.note_entry_point();
        self.script.len() as i32
    }

    /// Entry point: data length query; zero when no payload was supplied.
    /// Invoked after result delivery it still answers, but the violation is
    /// recorded and supersedes the call's outcome at collection.
    pub fn data_size(&mut self) -> (n: i32)
        requires
            old(self).wf(),
        ensures
            n == old(self)@.data.len(),
            final(self)@ == spec_entry_after_delivery(old(self)@),
            final(self).wf(),
    {
        self.note_entry_point();
        self.data.len() as i32
    }

    /// The script copy's payload: the captured script bytes, for the runtime
    /// to copy into guest memory. Requested after result delivery the bytes
    /// are still handed out, but the violation is recorded and supersedes
    /// the call's outcome at collection.
    pub fn script_bytes(&mut self) -> (r: &Vec<u8>)
        ensures
            r@ == old(self)@.script,
            final(self)@ == spec_entry_after_delivery(old(self)@),
            final(self).wf() == old(self).wf(),
    {
        self.note_entry_point();
        &self.script
    }

    /// The data copy's payload: the captured payload bytes, for the runtime
    /// to copy into guest memory; empty when no payload was supplied.
    /// Requested after result delivery the bytes are still handed out, but
    /// the violation is recorded and supersedes the call's outcome at
    /// collection.
    pub fn data_bytes(&mut self) -> (r: &Vec<u8>)
        ensures
            r@ == old(self)@.data,
            final(self)@ == spec_entry_after_delivery(old(self)@),
            final(self).wf() == old(self).wf(),
    {
        self.note_entry_point();
        &self.data
    }

    /// Entry point: script copy. Writes the full script buffer into the
    /// guest region at the guest-chosen offset; fails cleanly, changing
    /// nothing, when the guest reserved too little space there. Invoked
    /// after result delivery it is refused and the violation recorded.
    pub fn copy_script_to(&mut self, region: &mut GuestRegion, offset: usize) -> (r: Result<
        (),
        ExecutionError,
    >)
        ensures
            final(self)@ == spec_entry_after_delivery(old(self)@),
            final(self).wf() == old(self).wf(),
            r is Ok <==> (old(self)@.slot is None && offset + old(self)@.script.len() <= old(
                region,
            )@.len()),
            r is Ok ==> final(region)@ == spec_written(
                old(region)@,
                offset as int,
                old(self)@.script,
            ),
            r is Err ==> final(region)@ == old(region)@,
            old(self)@.slot is Some ==> (r matches Err(e) && e@ == ErrorModel::GuestFault(
                spec_entry_after_delivery_msg(),
            )),
    {
        if self.slot.is_written() {
            self.note_entry_point();
            return Err(ExecutionError::GuestFault(
                "entry point invoked after result delivery".to_owned(),
            ));
        }
        region.write_at(offset, self.script.as_slice())
    }

    /// Entry point: data copy. Writes the full payload buffer into the guest
    /// region at the guest-chosen offset; fails cleanly, changing nothing,
    /// when the guest reserved too little space there. Invoked after result
    /// delivery it is refused and the violation recorded.
    pub fn copy_data_to(&mut self, region: &mut GuestRegion, offset: usize) -> (r: Result<
        (),
        ExecutionError,
    >)
        ensures
            final(self)@ == spec_entry_after_delivery(old(self)@),
            final(self).wf() == old(self).wf(),
            r is Ok <==> (old(self)@.slot is None && offset + old(self)@.data.len() <= old(
                region,
            )@.len()),
            r is Ok ==> final(region)@ == spec_written(
                old(region)@,
                offset as int,
                old(self)@.data,
            ),
            r is Err ==> final(region)@ == old(region)@,
            old(self)@.slot is Some ==> (r matches Err(e) && e@ == ErrorModel::GuestFault(
                spec_entry_after_delivery_msg(),
            )),
    {
        if self.slot.is_written() {
            self.note_entry_point();
            return Err(ExecutionError::GuestFault(
                "entry point invoked after result delivery".to_owned(),
            ));
        }
        region.write_at(offset, self.data.as_slice())
    }

    /// Entry point: result delivery, exactly [`spec_deliver`] on the
    /// session's state. Must be the last host interaction of a call; a
    /// second delivery is refused and recorded as a guest fault.
    pub fn deliver(&mut self, bytes: Vec<u8>, error_flag: bool) -> (r: Result<(), ExecutionError>)
        ensures
            final(self)@ == spec_deliver(old(self)@, bytes@, error_flag).0,
            spec_unit_reply(r) == spec_deliver(old(self)@, bytes@, error_flag).1,
            final(self).wf() == old(self).wf(),
    {
        if self.slot.is_written() {
            if self.fault.is_none() {
                self.fault = Some(ExecutionError::GuestFault(
                    "result delivered more than once".to_owned(),
                ));
            }
            return Err(ExecutionError::GuestFault("result delivered more than once".to_owned()));
        }
        if bytes.len() == 0 {
            let _ = self.slot.write(Outcome::NoOutput);
            return Ok(());
        }
        match decode_utf8_text(bytes) {
            None => {
                if self.fault.is_none() {
                    self.fault = Some(ExecutionError::Transcoding(
                        "result bytes are not valid UTF-8".to_owned(),
                    ));
                }
                Err(ExecutionError::Transcoding("result bytes are not valid UTF-8".to_owned()))
            },
            Some(text) => {
                let outcome = if error_flag {
                    Outcome::Failure(text)
                } else {
                    Outcome::Success(text)
                };
                let _ = self.slot.write(outcome);
                Ok(())
            },
        }
    }

    /// COLLECT: consumes the session and classifies the call's outcome,
    /// exactly [`spec_collect`] on the session's state and the reported run
    /// status.
    pub fn collect(self, status: &RunStatus) -> (r: Result<Option<String>, ExecutionError>)
        ensures
            spec_call_reply(r) == spec_collect(self@, status@),
    {
        match self.fault {
            Some(e) => Err(e),
            None => {
                if !status.completed && status.memory_refused {
                    Err(ExecutionError::ResourceLimit(ResourceLimitError::OutOfMemory))
                } else if !status.completed && status.time_exhausted {
                    Err(ExecutionError::ResourceLimit(ResourceLimitError::TimeLimitExceeded))
                } else if !status.completed {
                    Err(ExecutionError::GuestFault(status.trap_message.clone()))
                } else {
                    match self.slot.take() {
                        Some(Outcome::Success(text)) => Ok(Some(text)),
                        Some(Outcome::Failure(msg)) => Err(ExecutionError::Script(msg)),
                        Some(Outcome::NoOutput) => Ok(None),
                        None => Err(ExecutionError::GuestFault(
                            "guest completed without delivering a result".to_owned(),
                        )),
                    }
                }
            },
        }
    }
}

/// One result delivery a guest attempts: the raw bytes and the error flag.
pub struct DeliveryModel {
    pub bytes: Seq<u8>,
    pub error_flag: bool,
}

/// A session's state after a sequence of delivery events.
pub open spec fn spec_run(m: SessionModel, deliveries: Seq<DeliveryModel>) -> SessionModel
    decreases deliveries.len(),
{
    if deliveries.len() == 0 {
        m
    } else {
        spec_run(
            spec_deliver(m, deliveries[0].bytes, deliveries[0].error_flag).0,
            deliveries.drop_first(),
        )
    }
}

/// Idempotence of calls: sessions created from identical script and data
/// start from identical fresh states, so identical guest behaviour (the
/// same deliveries) and an identical run status yield identical outcomes —
/// no state leaks from one call into another.
pub proof fn lemma_identical_calls_identical_outcomes(
    script: Seq<u8>,
    data: Seq<u8>,
    m1: SessionModel,
    m2: SessionModel,
    deliveries: Seq<DeliveryModel>,
    status: RunStatusModel,
)
    requires
        m1 == spec_fresh_session(script, data),
        m2 == spec_fresh_session(script, data),
    ensures
        spec_collect(spec_run(m1, deliveries), status) == spec_collect(
            spec_run(m2, deliveries),
            status,
        ),
{
}

/// The fault (if any) is a protocol fault — a contract violation by the
/// guest or a transcoding failure — never a resource-limit cause.
pub open spec fn spec_protocol_fault_only(fault: Option<ErrorModel>) -> bool {
    match fault {
        None => true,
        Some(e) => e is GuestFault || e is Transcoding,
    }
}

/// Delivery events record protocol faults only: a run started without a
/// resource-limit fault never acquires one.
pub proof fn lemma_run_records_protocol_faults_only(
    m: SessionModel,
    deliveries: Seq<DeliveryModel>,
)
    requires
        spec_protocol_fault_only(m.fault),
    ensures
        spec_protocol_fault_only(spec_run(m, deliveries).fault),
    decreases deliveries.len(),
{
    if deliveries.len() > 0 {
        lemma_run_records_protocol_faults_only(
            spec_deliver(m, deliveries[0].bytes, deliveries[0].error_flag).0,
            deliveries.drop_first(),
        );
    }
}

/// The out-of-memory classification appears only when a growth request was
/// actually refused: a call whose run status records no refusal is never
/// classified out of memory, whatever the guest delivered. (A refused
/// request that aborts the run is classified out of memory by
/// [`spec_collect`] directly.)
pub proof fn lemma_out_of_memory_only_when_refused(
    script: Seq<u8>,
    data: Seq<u8>,
    deliveries: Seq<DeliveryModel>,
    status: RunStatusModel,
)
    requires
        !status.memory_refused,
    ensures
        spec_collect(spec_run(spec_fresh_session(script, data), deliveries), status) != Err::<
            Option<Seq<char>>,
            ErrorModel,
        >(ErrorModel::ResourceLimit(ResourceLimitError::OutOfMemory)),
{
    lemma_run_records_protocol_faults_only(spec_fresh_session(script, data), deliveries);
}

/// The time-limit classification appears only when a deadline checkpoint
/// actually found the tick budget spent: a call whose run status records no
/// exhaustion is never classified as exceeding the time limit, whatever the
/// guest delivered. (An exhausted budget that aborts the run is classified
/// as a time limit by [`spec_collect`] directly.)
pub proof fn lemma_time_limit_only_when_exhausted(
    script: Seq<u8>,
    data: Seq<u8>,
    deliveries: Seq<DeliveryModel>,
    status: RunStatusModel,
)
    requires
        !status.time_exhausted,
    ensures
        spec_collect(spec_run(spec_fresh_session(script, data), deliveries), status) != Err::<
            Option<Seq<char>>,
            ErrorModel,
        >(ErrorModel::ResourceLimit(ResourceLimitError::TimeLimitExceeded)),
{
    lemma_run_records_protocol_faults_only(spec_fresh_session(script, data), deliveries);
}

} // verus!
