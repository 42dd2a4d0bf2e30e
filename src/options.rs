use vstd::prelude::*;

verus! {

/// Configuration of a node, built in the manner of a builder.
pub struct NodeOptions {
    cli_args: Vec<String>,
    use_global_arguments: bool,
    enable_rosout: bool,
    enable_rosout_reading: bool,
    start_parameter_services: bool,
    allow_undeclared_parameters: bool,
    automatically_declare_parameters_from_overrides: bool,
}

impl NodeOptions {
    /// Whether the node writes its log records to the log topic.
    pub closed spec fn rosout_spec(&self) -> bool {
        self.enable_rosout
    }

    /// Whether the node also reads the log topic.
    pub closed spec fn rosout_reading_spec(&self) -> bool {
        self.enable_rosout_reading
    }

    /// Whether the node offers its parameter services.
    pub closed spec fn parameter_services_spec(&self) -> bool {
        self.start_parameter_services
    }

    /// The node's own command-line arguments.
    pub closed spec fn cli_args_spec(&self) -> Seq<String> {
        self.cli_args@
    }

    /// Whether process-wide command-line arguments apply too.
    pub closed spec fn global_arguments_spec(&self) -> bool {
        self.use_global_arguments
    }

    /// Whether parameters may be set without being declared first.
    pub closed spec fn undeclared_parameters_spec(&self) -> bool {
        self.allow_undeclared_parameters
    }

    /// Whether overridden parameters are declared automatically.
    pub closed spec fn auto_declare_spec(&self) -> bool {
        self.automatically_declare_parameters_from_overrides
    }

    /// Every setting but the two log flags agrees between `self` and `o`.
    pub open spec fn same_but_rosout(&self, o: NodeOptions) -> bool {
        &&& self.parameter_services_spec() == o.parameter_services_spec()
        &&& self.cli_args_spec() == o.cli_args_spec()
        &&& self.global_arguments_spec() == o.global_arguments_spec()
        &&& self.undeclared_parameters_spec() == o.undeclared_parameters_spec()
        &&& self.auto_declare_spec() == o.auto_declare_spec()
    }

    /// The default settings: log writing on, log reading off, parameter
    /// services on, global arguments on, no arguments of its own,
    /// undeclared parameters refused, no automatic declaration.
    pub open spec fn is_default(&self) -> bool {
        &&& self.rosout_spec()
        &&& !self.rosout_reading_spec()
        &&& self.parameter_services_spec()
        &&& self.cli_args_spec() == Seq::<String>::empty()
        &&& self.global_arguments_spec()
        &&& !self.undeclared_parameters_spec()
        &&& !self.auto_declare_spec()
    }

    /// The default options (see `is_default`).
    pub fn new() -> (r: NodeOptions)
        ensures
            r.is_default(),
    {
        NodeOptions {
            cli_args: Vec::new(),
            use_global_arguments: true,
            enable_rosout: true,
            enable_rosout_reading: false,
            start_parameter_services: true,
            allow_undeclared_parameters: false,
            automatically_declare_parameters_from_overrides: false,
        }
    }

    /// The same options with log writing set to `enable_rosout`.
    pub fn enable_rosout(self, enable_rosout: bool) -> (r: NodeOptions)
        ensures
            r.rosout_spec() == enable_rosout,
            r.rosout_reading_spec() == self.rosout_reading_spec(),
            r.same_but_rosout(self),
    {
        NodeOptions { enable_rosout, ..self }
    }

    /// The same options with log reading set to `enable_rosout_reading`.
    pub fn read_rosout(self, enable_rosout_reading: bool) -> (r: NodeOptions)
        ensures
            r.rosout_reading_spec() == enable_rosout_reading,
            r.rosout_spec() == self.rosout_spec(),
            r.same_but_rosout(self),
    {
        NodeOptions { enable_rosout_reading, ..self }
    }

    /// Whether the node writes its log records to the log topic.
    pub fn rosout_enabled(&self) -> (r: bool)
        ensures
            r == self.rosout_spec(),
    {
        self.enable_rosout
    }

    /// Whether the node also reads the log topic.
    pub fn rosout_reading_enabled(&self) -> (r: bool)
        ensures
            r == self.rosout_reading_spec(),
    {
        self.enable_rosout_reading
    }
}

impl Default for NodeOptions {
    fn default() -> (r: NodeOptions)
        ensures
            r.is_default(),
    {
        NodeOptions::new()
    }
}

} // verus!
