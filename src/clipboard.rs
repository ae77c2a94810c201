use vstd::prelude::*;
use vstd::string::*;

verus! {

/// A clipboard read in flight: empty until the host's completion callback
/// delivers the text. The callback fires once; a later delivery is ignored.
pub struct ClipboardRead {
    text: Option<String>,
}

impl ClipboardRead {
    pub closed spec fn view(&self) -> Option<Seq<char>> {
        match self.text {
            Some(s) => Some(s@),
            None => None,
        }
    }

    pub fn new() -> (r: ClipboardRead)
        ensures
            r@ is None,
    {
        ClipboardRead { text: None }
    }

    /// The completion callback: records `text` unless a text is already there.
    pub fn complete(&mut self, text: String)
        ensures
            final(self)@ == delivered(old(self)@, text@),
    {
        if self.text.is_none() {
            self.text = Some(text);
        }
    }

    /// The text, once the callback has delivered it; nothing before.
    pub fn poll(&self) -> (r: Option<String>)
        ensures
            match r {
                Some(s) => self@ == Some(s@),
                None => self@ is None,
            },
    {
        match &self.text {
            Some(s) => Some(s.clone()),
            None => None,
        }
    }
}

pub open spec fn delivered(state: Option<Seq<char>>, text: Seq<char>) -> Option<Seq<char>> {
    if state is Some {
        state
    } else {
        Some(text)
    }
}

/// The state after each text of `deliveries` has been handed to the callback.
pub open spec fn after_deliveries(state: Option<Seq<char>>, deliveries: Seq<Seq<char>>) -> Option<Seq<char>>
    decreases deliveries.len(),
{
    if deliveries.len() == 0 {
        state
    } else {
        after_deliveries(delivered(state, deliveries[0]), deliveries.drop_first())
    }
}

/// A read whose callback has not fired yields nothing; once it fires, the
/// read yields the first text delivered.
pub proof fn lemma_no_text_before_callback(deliveries: Seq<Seq<char>>)
    ensures
        deliveries.len() == 0 ==> after_deliveries(None, deliveries) is None,
        deliveries.len() > 0 ==> after_deliveries(None, deliveries) == Some(deliveries[0]),
    decreases deliveries.len(),
{
    if deliveries.len() > 0 {
        lemma_first_delivery_kept(deliveries[0], deliveries.drop_first());
    }
}

proof fn lemma_first_delivery_kept(text: Seq<char>, later: Seq<Seq<char>>)
    ensures
        after_deliveries(Some(text), later) == Some(text),
    decreases later.len(),
{
    if later.len() > 0 {
        lemma_first_delivery_kept(text, later.drop_first());
    }
}

/// The text a finished read returns: the clipboard's text, or a note saying
/// why the buffer that held it could not be read.
pub fn clipboard_text(slot: Result<String, String>) -> (r: String)
    ensures
        match slot {
            Ok(s) => r@ == s@,
            Err(reason) => r@ == "Clipboard data unavailable: "@ + reason@,
        },
{
    match slot {
        Ok(s) => s,
        Err(reason) => String::from_str("Clipboard data unavailable: ").concat(reason.as_str()),
    }
}

} // verus!
