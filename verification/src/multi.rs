//! A connection abstraction that allows the choice of backends
//! dynamically: a tagged union over a default and an alternate backend.
//!
//! `Connection::new` probes the default backend first and falls back to
//! the alternate only on failure. Every later operation is routed to
//! whichever backend produced the live connection, and the
//! backend-specific result is re-wrapped in the matching variant, so the
//! two backends' native types stay opaque to callers.

use vstd::prelude::*;

use crate::connection::ConnectionInterface;
use crate::error::Error;
use crate::window::Window;

verus! {

/// A connection to whichever of the two candidate backends came up.
#[derive(Clone, Debug)]
pub enum Connection<C1, C2> {
    /// The default backend's connection.
    Default(C1),
    /// The alternate backend's connection.
    Alternate(C2),
}

/// An adapter descriptor from one of the two backends.
#[derive(Clone, Debug)]
pub enum Adapter<A1, A2> {
    /// An adapter of the default backend.
    Default(A1),
    /// An adapter of the alternate backend.
    Alternate(A2),
}

/// An opened, thread-confined device handle from one of the two
/// backends.
#[derive(Debug)]
pub enum Device<D1, D2> {
    /// A device of the default backend.
    Default(D1),
    /// A device of the alternate backend.
    Alternate(D2),
}

/// A drawable widget from one of the two backends.
#[derive(Debug)]
pub enum NativeWidget<W1, W2> {
    /// A widget of the default backend.
    Default(W1),
    /// A widget of the alternate backend.
    Alternate(W2),
}

impl<A1, A2> Adapter<A1, A2> {
    /// Wraps an adapter result of the default backend in the `Default`
    /// tag, passing an error through unchanged.
    pub fn wrap_default_result(result: Result<A1, Error>) -> (r: Result<Adapter<A1, A2>, Error>)
        ensures
            result matches Ok(adapter)
                ==> r == Ok::<Adapter<A1, A2>, Error>(Adapter::Default(adapter)),
            result matches Err(error) ==> r == Err::<Adapter<A1, A2>, Error>(error),
    {
        match result {
            Ok(adapter) => Ok(Adapter::Default(adapter)),
            Err(error) => Err(error),
        }
    }

    /// Wraps an adapter result of the alternate backend in the
    /// `Alternate` tag, passing an error through unchanged.
    pub fn wrap_alternate_result(result: Result<A2, Error>) -> (r: Result<Adapter<A1, A2>, Error>)
        ensures
            result matches Ok(adapter)
                ==> r == Ok::<Adapter<A1, A2>, Error>(Adapter::Alternate(adapter)),
            result matches Err(error) ==> r == Err::<Adapter<A1, A2>, Error>(error),
    {
        match result {
            Ok(adapter) => Ok(Adapter::Alternate(adapter)),
            Err(error) => Err(error),
        }
    }
}

impl<D1, D2> Device<D1, D2> {
    /// Wraps a device result of the default backend in the `Default`
    /// tag, passing an error through unchanged.
    pub fn wrap_default_result(result: Result<D1, Error>) -> (r: Result<Device<D1, D2>, Error>)
        ensures
            result matches Ok(device)
                ==> r == Ok::<Device<D1, D2>, Error>(Device::Default(device)),
            result matches Err(error) ==> r == Err::<Device<D1, D2>, Error>(error),
    {
        match result {
            Ok(device) => Ok(Device::Default(device)),
            Err(error) => Err(error),
        }
    }

    /// Wraps a device result of the alternate backend in the `Alternate`
    /// tag, passing an error through unchanged.
    pub fn wrap_alternate_result(result: Result<D2, Error>) -> (r: Result<Device<D1, D2>, Error>)
        ensures
            result matches Ok(device)
                ==> r == Ok::<Device<D1, D2>, Error>(Device::Alternate(device)),
            result matches Err(error) ==> r == Err::<Device<D1, D2>, Error>(error),
    {
        match result {
            Ok(device) => Ok(Device::Alternate(device)),
            Err(error) => Err(error),
        }
    }
}

impl<W1, W2> NativeWidget<W1, W2> {
    /// Wraps a widget result of the default backend in the `Default`
    /// tag, passing an error through unchanged.
    pub fn wrap_default_result(result: Result<W1, Error>) -> (r: Result<
        NativeWidget<W1, W2>,
        Error,
    >)
        ensures
            result matches Ok(widget)
                ==> r == Ok::<NativeWidget<W1, W2>, Error>(NativeWidget::Default(widget)),
            result matches Err(error) ==> r == Err::<NativeWidget<W1, W2>, Error>(error),
    {
        match result {
            Ok(widget) => Ok(NativeWidget::Default(widget)),
            Err(error) => Err(error),
        }
    }

    /// Wraps a widget result of the alternate backend in the `Alternate`
    /// tag, passing an error through unchanged.
    pub fn wrap_alternate_result(result: Result<W2, Error>) -> (r: Result<
        NativeWidget<W1, W2>,
        Error,
    >)
        ensures
            result matches Ok(widget)
                ==> r == Ok::<NativeWidget<W1, W2>, Error>(NativeWidget::Alternate(widget)),
            result matches Err(error) ==> r == Err::<NativeWidget<W1, W2>, Error>(error),
    {
        match result {
            Ok(widget) => Ok(NativeWidget::Alternate(widget)),
            Err(error) => Err(error),
        }
    }
}

impl<C1: ConnectionInterface, C2: ConnectionInterface> Connection<C1, C2> {
    /// What the two-step probe returns, given the outcome of each
    /// backend's constructor: a default-backend success wins outright;
    /// on its failure the alternate's result is taken as-is, its error
    /// value included. The default backend's error is discarded, never
    /// chained.
    pub open spec fn probe_outcome(def: Result<C1, Error>, alt: Result<C2, Error>) -> Result<
        Connection<C1, C2>,
        Error,
    > {
        match def {
            Ok(connection) => Ok(Connection::Default(connection)),
            Err(_) => Self::fall_back_outcome(alt),
        }
    }

    /// What the probe returns once the default backend has failed.
    pub open spec fn fall_back_outcome(alt: Result<C2, Error>) -> Result<
        Connection<C1, C2>,
        Error,
    > {
        match alt {
            Ok(connection) => Ok(Connection::Alternate(connection)),
            Err(error) => Err(error),
        }
    }

    /// Wraps a connection the default backend produced: exactly that
    /// value, under the `Default` tag.
    pub fn wrap_default(connection: C1) -> (r: Result<Connection<C1, C2>, Error>)
        ensures
            r == Ok::<Connection<C1, C2>, Error>(Connection::Default(connection)),
    {
        Ok(Connection::Default(connection))
    }

    /// Takes the alternate backend's probe result as-is: a success is
    /// wrapped as `Alternate`, an error is returned unchanged.
    pub fn fall_back(alt: Result<C2, Error>) -> (r: Result<Connection<C1, C2>, Error>)
        ensures
            r == Self::fall_back_outcome(alt),
            alt matches Ok(connection)
                ==> r == Ok::<Connection<C1, C2>, Error>(Connection::Alternate(connection)),
            alt matches Err(error) ==> r == Err::<Connection<C1, C2>, Error>(error),
    {
        match alt {
            Ok(connection) => Ok(Connection::Alternate(connection)),
            Err(error) => Err(error),
        }
    }

    /// Connects to the default display: a fixed two-step probe, no retry
    /// and no timeout. The default backend's constructor is tried first;
    /// only when it fails is the alternate's tried, and `fall_back` takes
    /// that second result as-is. The result is `probe_outcome` of the two
    /// constructors' outcomes, and the alternate constructor is not even
    /// invoked when the default succeeds.
    pub fn new() -> (r: Result<Connection<C1, C2>, Error>) {
        match C1::new() {
            Ok(connection) => Self::wrap_default(connection),
            Err(_) => Self::fall_back(C2::new()),
        }
    }

    /// Returns the "best" adapter on this system, from the live backend,
    /// tagged to match this connection.
    ///
    /// This is an alias for `create_hardware_adapter` at the backend
    /// level; it is not re-aliased here.
    pub fn create_adapter(&self) -> (r: Result<Adapter<C1::Adapter, C2::Adapter>, Error>)
        ensures
            r matches Ok(adapter) ==> ((*self) is Default <==> adapter is Default),
    {
        match self {
            Connection::Default(connection) => Adapter::wrap_default_result(
                connection.create_adapter(),
            ),
            Connection::Alternate(connection) => Adapter::wrap_alternate_result(
                connection.create_adapter(),
            ),
        }
    }

    /// Returns the "best" adapter on this system, preferring
    /// high-performance hardware adapters, tagged to match this
    /// connection.
    pub fn create_hardware_adapter(&self) -> (r: Result<Adapter<C1::Adapter, C2::Adapter>, Error>)
        ensures
            r matches Ok(adapter) ==> ((*self) is Default <==> adapter is Default),
    {
        match self {
            Connection::Default(connection) => Adapter::wrap_default_result(
                connection.create_hardware_adapter(),
            ),
            Connection::Alternate(connection) => Adapter::wrap_alternate_result(
                connection.create_hardware_adapter(),
            ),
        }
    }

    /// Returns the "best" adapter on this system, preferring low-power
    /// hardware adapters, tagged to match this connection.
    pub fn create_low_power_adapter(&self) -> (r: Result<Adapter<C1::Adapter, C2::Adapter>, Error>)
        ensures
            r matches Ok(adapter) ==> ((*self) is Default <==> adapter is Default),
    {
        match self {
            Connection::Default(connection) => Adapter::wrap_default_result(
                connection.create_low_power_adapter(),
            ),
            Connection::Alternate(connection) => Adapter::wrap_alternate_result(
                connection.create_low_power_adapter(),
            ),
        }
    }

    /// Returns the "best" adapter on this system, preferring software
    /// adapters, tagged to match this connection.
    pub fn create_software_adapter(&self) -> (r: Result<Adapter<C1::Adapter, C2::Adapter>, Error>)
        ensures
            r matches Ok(adapter) ==> ((*self) is Default <==> adapter is Default),
    {
        match self {
            Connection::Default(connection) => Adapter::wrap_default_result(
                connection.create_software_adapter(),
            ),
            Connection::Alternate(connection) => Adapter::wrap_alternate_result(
                connection.create_software_adapter(),
            ),
        }
    }

    /// Opens the hardware device corresponding to the given adapter.
    ///
    /// The connection's tag and the adapter's tag must match: any
    /// cross-pairing fails with `IncompatibleAdapter` before backend code
    /// runs, however valid the adapter is on its own. On a matching pair
    /// the live backend opens the device and the result carries this
    /// connection's tag.
    ///
    /// Device handles are local to a single thread.
    pub fn create_device(&self, adapter: &Adapter<C1::Adapter, C2::Adapter>) -> (r: Result<
        Device<C1::Device, C2::Device>,
        Error,
    >)
        ensures
            (*self) is Default && (*adapter) is Alternate ==> r == Err::<
                Device<C1::Device, C2::Device>,
                Error,
            >(Error::IncompatibleAdapter),
            (*self) is Alternate && (*adapter) is Default ==> r == Err::<
                Device<C1::Device, C2::Device>,
                Error,
            >(Error::IncompatibleAdapter),
            r matches Ok(device) ==> ((*self) is Default <==> device is Default),
    {
        match (self, adapter) {
            (Connection::Default(connection), Adapter::Default(adapter)) => {
                Device::wrap_default_result(connection.create_device(adapter))
            },
            (Connection::Alternate(connection), Adapter::Alternate(adapter)) => {
                Device::wrap_alternate_result(connection.create_device(adapter))
            },
            _ => Err(Error::IncompatibleAdapter),
        }
    }

    /// Opens the connection corresponding to the given window: the same
    /// two-step probe as `new`, driven by a window handle. The default
    /// backend's error is discarded in the same way.
    pub fn from_winit_window(window: &Window) -> (r: Result<Connection<C1, C2>, Error>) {
        match C1::from_winit_window(window) {
            Ok(connection) => Self::wrap_default(connection),
            Err(_) => Self::fall_back(C2::from_winit_window(window)),
        }
    }

    /// Creates a native widget type from the given window, via the live
    /// backend, tagged to match this connection. The widget can later be
    /// used to create surfaces that render to the window.
    pub fn create_native_widget_from_winit_window(&self, window: &Window) -> (r: Result<
        NativeWidget<C1::NativeWidget, C2::NativeWidget>,
        Error,
    >)
        ensures
            r matches Ok(widget) ==> ((*self) is Default <==> widget is Default),
    {
        match self {
            Connection::Default(connection) => NativeWidget::wrap_default_result(
                connection.create_native_widget_from_winit_window(window),
            ),
            Connection::Alternate(connection) => NativeWidget::wrap_alternate_result(
                connection.create_native_widget_from_winit_window(window),
            ),
        }
    }
}

impl<C1: ConnectionInterface, C2: ConnectionInterface> ConnectionInterface for Connection<C1, C2> {
    type Adapter = Adapter<C1::Adapter, C2::Adapter>;

    type Device = Device<C1::Device, C2::Device>;

    type NativeWidget = NativeWidget<C1::NativeWidget, C2::NativeWidget>;

    fn new() -> Result<Connection<C1, C2>, Error> {
        Connection::new()
    }

    fn create_adapter(&self) -> Result<Adapter<C1::Adapter, C2::Adapter>, Error> {
        Connection::create_adapter(self)
    }

    fn create_hardware_adapter(&self) -> Result<Adapter<C1::Adapter, C2::Adapter>, Error> {
        Connection::create_hardware_adapter(self)
    }

    fn create_low_power_adapter(&self) -> Result<Adapter<C1::Adapter, C2::Adapter>, Error> {
        Connection::create_low_power_adapter(self)
    }

    fn create_software_adapter(&self) -> Result<Adapter<C1::Adapter, C2::Adapter>, Error> {
        Connection::create_software_adapter(self)
    }

    fn create_device(&self, adapter: &Adapter<C1::Adapter, C2::Adapter>) -> Result<
        Device<C1::Device, C2::Device>,
        Error,
    > {
        Connection::create_device(self, adapter)
    }

    fn from_winit_window(window: &Window) -> Result<Connection<C1, C2>, Error> {
        Connection::from_winit_window(window)
    }

    fn create_native_widget_from_winit_window(&self, window: &Window) -> Result<
        NativeWidget<C1::NativeWidget, C2::NativeWidget>,
        Error,
    > {
        Connection::create_native_widget_from_winit_window(self, window)
    }
}

/// The default backend's success wins: whenever its constructor
/// succeeded, the probe yields exactly its connection under the `Default`
/// tag, whatever the alternate constructor's outcome would have been.
pub proof fn lemma_default_success_wins<C1: ConnectionInterface, C2: ConnectionInterface>(
    def: Result<C1, Error>,
    alt: Result<C2, Error>,
)
    ensures
        def is Ok ==> Connection::<C1, C2>::probe_outcome(def, alt) == Ok::<
            Connection<C1, C2>,
            Error,
        >(Connection::Default(def->Ok_0)),
{
}

/// When the default backend's constructor fails and the alternate's
/// succeeds, the probe yields the alternate's connection under the
/// `Alternate` tag.
pub proof fn lemma_fall_back_to_alternate<C1: ConnectionInterface, C2: ConnectionInterface>(
    def: Result<C1, Error>,
    alt: Result<C2, Error>,
)
    ensures
        def is Err && alt is Ok ==> Connection::<C1, C2>::probe_outcome(def, alt) == Ok::<
            Connection<C1, C2>,
            Error,
        >(Connection::Alternate(alt->Ok_0)),
{
}

/// When both constructors fail, the probe returns exactly the alternate
/// backend's error value; the default backend's error is discarded.
pub proof fn lemma_both_fail_returns_alternate_error<
    C1: ConnectionInterface,
    C2: ConnectionInterface,
>(def: Result<C1, Error>, alt: Result<C2, Error>)
    ensures
        def is Err && alt is Err ==> Connection::<C1, C2>::probe_outcome(def, alt) == Err::<
            Connection<C1, C2>,
            Error,
        >(alt->Err_0),
{
}

} // verus!
