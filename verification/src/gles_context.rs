//! The OpenGL ES context that all monitors share: how it comes about and what
//! its failures mean.
//!
//! Creating the context alternates between EGL and decisions. Each stage below
//! stands for one thing that EGL is to do next; handing the stage what came of
//! it gives the next stage or the failure.
use vstd::prelude::*;

use crate::error::GlesContextError;

verus! {

/// What came of locking the shared context and making it current.
#[derive(Clone, Copy, Debug, PartialEq, Eq, Structural)]
pub enum Activation {
    /// The lock is poisoned.
    Poisoned,
    /// The lock was taken and the context could not be made current.
    Refused,
    /// The context is current.
    Current,
}

/// An EGL display is to be opened on the device.
#[derive(Debug)]
pub struct DisplayRequest {
    sealed: (),
}

/// The configurations of the display are to be listed.
#[derive(Debug)]
pub struct ConfigRequest {
    sealed: (),
}

/// A context is to be created with the chosen configuration.
#[derive(Debug)]
pub struct ContextRequest {
    config: usize,
}

/// The new context is to be made current without a surface.
#[derive(Debug)]
pub struct CurrentRequest {
    config: usize,
}

/// A context that has been created and made current.
#[derive(Debug)]
pub struct GlesContext {
    config: usize,
}

impl DisplayRequest {
    /// Takes whether the display could be opened.
    pub fn opened(self, opened: bool) -> (next: Result<ConfigRequest, GlesContextError>)
        ensures
            next is Ok <==> opened,
            next matches Err(error) ==> error == GlesContextError::DisplayCreationFailed,
    {
        if opened {
            Ok(ConfigRequest { sealed: () })
        } else {
            Err(GlesContextError::DisplayCreationFailed)
        }
    }
}

/// Whether the configuration at `index` has the highest number of samples,
/// and every later one has fewer.
pub open spec fn is_best_config(samples: Seq<u8>, index: int) -> bool {
    &&& 0 <= index < samples.len()
    &&& forall|i: int| 0 <= i < samples.len() ==> samples[i] <= samples[index]
    &&& forall|i: int| index < i < samples.len() ==> samples[i] < samples[index]
}

/// Chooses among configurations by their numbers of samples; `None` says that
/// they could not be listed. Of several with the highest number, the last one
/// is taken.
pub fn find_egl_config(samples: Option<&Vec<u8>>) -> (choice: Result<usize, GlesContextError>)
    ensures
        choice is Ok <==> (samples matches Some(list) && list@.len() > 0),
        choice matches Ok(index) ==> is_best_config(samples->0@, index as int),
        choice matches Err(error) ==> error == GlesContextError::NoConfigFound,
{
    match samples {
        None => Err(GlesContextError::NoConfigFound),
        Some(list) => {
            if list.len() == 0 {
                return Err(GlesContextError::NoConfigFound);
            }
            let mut best: usize = 0;
            let mut i: usize = 1;
            while i < list.len()
                invariant
                    1 <= i <= list@.len(),
                    is_best_config(list@.take(i as int), best as int),
                decreases list@.len() - i,
            {
                assert(list@.take(i as int)[best as int] == list@[best as int]);
                assert forall|j: int| 0 <= j < i implies list@[j] <= list@[best as int] by {
                    assert(list@.take(i as int)[j] == list@[j]);
                }
                assert forall|j: int| best < j < i implies list@[j] < list@[best as int] by {
                    assert(list@.take(i as int)[j] == list@[j]);
                }
                if list[best] <= list[i] {
                    best = i;
                }
                i += 1;
            }
            assert(list@.take(i as int) =~= list@);
            Ok(best)
        },
    }
}

/// At most one configuration is the best: the choice depends on nothing but
/// the numbers of samples.
pub proof fn law_best_config_is_unique(samples: Seq<u8>, first: int, second: int)
    requires
        is_best_config(samples, first),
        is_best_config(samples, second),
    ensures
        first == second,
{
    assert(samples[first] <= samples[second]);
    assert(samples[second] <= samples[first]);
}

impl ConfigRequest {
    /// Takes the numbers of samples of the display's configurations, or
    /// `None` if they could not be listed.
    pub fn listed(self, samples: Option<&Vec<u8>>) -> (next: Result<
        ContextRequest,
        GlesContextError,
    >)
        ensures
            next is Ok <==> (samples matches Some(list) && list@.len() > 0),
            next matches Ok(request) ==> is_best_config(samples->0@, request.chosen() as int),
            next matches Err(error) ==> error == GlesContextError::NoConfigFound,
    {
        match find_egl_config(samples) {
            Ok(config) => Ok(ContextRequest { config }),
            Err(error) => Err(error),
        }
    }
}

impl ContextRequest {
    /// The chosen configuration.
    pub closed spec fn chosen(self) -> usize {
        self.config
    }

    /// The position of the configuration to create the context with.
    pub fn config(&self) -> (config: usize)
        ensures
            config == self.chosen(),
    {
        self.config
    }

    /// Takes whether the context could be created, or why not.
    pub fn created(self, outcome: Result<(), String>) -> (next: Result<
        CurrentRequest,
        GlesContextError,
    >)
        ensures
            next is Ok <==> outcome is Ok,
            next matches Ok(request) ==> request.chosen() == self.chosen(),
            next matches Err(error) ==> error == GlesContextError::EglContextCreationFailed(
                outcome->Err_0,
            ),
    {
        match outcome {
            Ok(()) => Ok(CurrentRequest { config: self.config }),
            Err(reason) => Err(GlesContextError::EglContextCreationFailed(reason)),
        }
    }
}

impl CurrentRequest {
    /// The chosen configuration.
    pub closed spec fn chosen(self) -> usize {
        self.config
    }

    /// Takes whether the context could be made current.
    pub fn activated(self, current: bool) -> (next: Result<GlesContext, GlesContextError>)
        ensures
            next is Ok <==> current,
            next matches Ok(context) ==> context.chosen() == self.chosen(),
            next matches Err(error) ==> error == GlesContextError::MakeCurrentFailed,
    {
        let context = GlesContext { config: self.config };
        match context.make_current_surfaceless(current) {
            Ok(()) => Ok(context),
            Err(error) => Err(error),
        }
    }
}

impl GlesContext {
    /// The chosen configuration.
    pub closed spec fn chosen(self) -> usize {
        self.config
    }

    /// Begins to create a context on a device that is there or is missing.
    pub fn new(device_present: bool) -> (next: Result<DisplayRequest, GlesContextError>)
        ensures
            next is Ok <==> device_present,
            next matches Err(error) ==> error == GlesContextError::DisplayCreationFailed,
    {
        if device_present {
            Ok(DisplayRequest { sealed: () })
        } else {
            Err(GlesContextError::DisplayCreationFailed)
        }
    }

    /// The position of the configuration that the context was created with.
    pub fn config(&self) -> (config: usize)
        ensures
            config == self.chosen(),
    {
        self.config
    }

    /// Takes whether EGL made the context current without a surface.
    pub fn make_current_surfaceless(&self, current: bool) -> (outcome: Result<
        (),
        GlesContextError,
    >)
        ensures
            outcome is Ok <==> current,
            outcome matches Err(error) ==> error == GlesContextError::MakeCurrentFailed,
    {
        if current {
            Ok(())
        } else {
            Err(GlesContextError::MakeCurrentFailed)
        }
    }
}

} // verus!
