//! The decoded contents of a scanline image: a header together with one
//! row-major sample buffer per declared channel.
//!
//! A value of this type is what a completed write produces and what a read
//! consumes; the codec that turns it into container bytes and back sits
//! outside the descriptor layer.

use vstd::prelude::*;

use crate::error::Error;
use crate::error::Result;
use crate::header::Header;

verus! {

/// A header and, for each channel it declares, the channel's samples in
/// row-major order over the data window.
#[derive(Debug)]
pub struct ImageData {
    /// The declarative properties of the image.
    pub header: Header,
    /// One sample buffer per header channel, in the header's channel order;
    /// each holds exactly data-window width times height samples.
    pub samples: Vec<Vec<u32>>,
}

impl ImageData {
    /// Well-formedness: a valid header, and one full sample buffer per
    /// declared channel.
    pub open spec fn wf(&self) -> bool {
        &&& self.header.wf()
        &&& self.samples@.len() == self.header.channels@.len()
        &&& forall|i: int|
            0 <= i < self.samples@.len() ==> (#[trigger] self.samples@[i])@.len()
                == self.header.spec_data_width() * self.header.spec_data_height()
    }

    /// The samples stored for the channel of the given name.
    pub open spec fn spec_samples_of(&self, name: Seq<char>) -> Seq<u32> {
        self.samples@[self.header.spec_channel_index(name)]@
    }

    /// Binds a header to one sample buffer per declared channel.
    ///
    /// Fails if the number of buffers differs from the number of declared
    /// channels, or if any buffer does not hold exactly data-window width
    /// times height samples.
    pub fn new(header: Header, samples: Vec<Vec<u32>>) -> (r: Result<ImageData>)
        requires
            header.wf(),
        ensures
            r is Ok <==> (samples@.len() == header.channels@.len() && forall|i: int|
                0 <= i < samples@.len() ==> (#[trigger] samples@[i])@.len()
                    == header.spec_data_width() * header.spec_data_height()),
            r matches Ok(img) ==> img == (ImageData { header, samples }),
            r matches Ok(img) ==> img.wf(),
    {
        if samples.len() != header.channels().len() {
            return Err(Error::Generic(
                "one sample buffer per declared channel is required".to_owned(),
            ));
        }
        let (w, h) = header.data_dimensions();
        proof {
            assert((w as int) * (h as int) <= u64::MAX) by (nonlinear_arith)
                requires
                    w <= u32::MAX,
                    h <= u32::MAX,
            ;
        }
        let wh: u64 = (w as u64) * (h as u64);
        let n = samples.len();
        let mut i: usize = 0;
        while i < n
            invariant
                i <= n,
                n == samples@.len(),
                wh == header.spec_data_width() * header.spec_data_height(),
                forall|k: int| 0 <= k < i ==> (#[trigger] samples@[k])@.len() == wh,
            decreases n - i,
        {
            if (samples[i].len() as u64) != wh {
                return Err(Error::Generic(
                    "a sample buffer does not cover the data window".to_owned(),
                ));
            }
            i = i + 1;
        }
        Ok(ImageData { header, samples })
    }

    /// Access to the image's header.
    pub fn header(&self) -> (r: &Header)
        ensures
            *r == self.header,
    {
        &self.header
    }

    /// Borrows the samples stored for the channel of the given name.
    pub fn channel_samples(&self, name: &str) -> (r: Option<&Vec<u32>>)
        requires
            self.wf(),
        ensures
            match r {
                Some(d) => self.header.spec_has_channel(name@) && d@ == self.spec_samples_of(
                    name@,
                ),
                None => !self.header.spec_has_channel(name@),
            },
    {
        let key: String = name.to_owned();
        match self.header.find_channel(&key) {
            Some(i) => {
                proof {
                    self.header.lemma_channel_index_agrees(name@, i as int);
                }
                Some(&self.samples[i])
            },
            None => None,
        }
    }
}

} // verus!
