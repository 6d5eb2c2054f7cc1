//! Play-field configuration: dimensions, entity extents and the serve
//! delay, validated once at startup, plus the derived field edges.

use vstd::prelude::*;

verus! {

/// Subunits per world unit. One world unit is one pixel of the host's
/// viewport; positions are stored in subunits so that one tick of
/// motion is exact: a velocity of `VEL_SCALE` covers
/// `STEP_PER_VEL * VEL_SCALE` subunits per tick, which is
/// 500 world units per second at 60 ticks per second.
pub const COORD_SCALE: i64 = 3000;

/// Fixed-point scale for velocities: a paddle driven up moves at
/// exactly `VEL_SCALE`, i.e. one world-speed unit.
pub const VEL_SCALE: i64 = 1000;

/// Subunits travelled per tick per fixed-point velocity unit:
/// 500 world units/s ÷ 60 ticks/s × `COORD_SCALE` ÷ `VEL_SCALE`.
pub const STEP_PER_VEL: i64 = 25;

/// Largest velocity magnitude the simulation admits (100 world-speed
/// units); launches and bounces stay far below it, the cap only keeps
/// the integer arithmetic of a tick in range.
pub const VEL_LIMIT: i64 = 100000;

/// Largest distance an entity can cover in one tick.
pub const MAX_STEP: i64 = 2500000;

/// Largest half-extent of the field or of an entity, in subunits.
pub const DIM_LIMIT: i64 = 1000000000;

/// Mathematical image of a validated [`SimConfig`]: every quantity as
/// an unbounded integer. Contracts and the tick transition are stated
/// over this model.
pub struct ConfigModel {
    pub half_width: int,
    pub half_height: int,
    pub paddle_half_w: int,
    pub paddle_half_h: int,
    pub ball_half_w: int,
    pub ball_half_h: int,
    pub serve_delay_ms: int,
}

impl ConfigModel {
    /// What validation guarantees of every live configuration.
    pub open spec fn valid(self) -> bool {
        &&& 0 < self.half_width <= DIM_LIMIT
        &&& 0 < self.half_height <= DIM_LIMIT
        &&& 0 < self.paddle_half_w
        &&& 0 < self.paddle_half_h <= self.half_height
        &&& 0 < self.ball_half_w
        &&& 0 < self.ball_half_h <= self.half_height
        &&& 2 * self.paddle_half_w + self.ball_half_w <= self.half_width
        &&& 0 <= self.serve_delay_ms
    }

    /// y of the field's top edge.
    pub open spec fn top_edge(self) -> int {
        self.half_height
    }

    /// y of the field's bottom edge.
    pub open spec fn bottom_edge(self) -> int {
        -self.half_height
    }

    /// x of the field's left edge.
    pub open spec fn left_edge(self) -> int {
        -self.half_width
    }

    /// x of the field's right edge.
    pub open spec fn right_edge(self) -> int {
        self.half_width
    }

    /// Lowest y the centre of a paddle may take.
    pub open spec fn paddle_y_min(self) -> int {
        -self.half_height + self.paddle_half_h
    }

    /// Highest y the centre of a paddle may take.
    pub open spec fn paddle_y_max(self) -> int {
        self.half_height - self.paddle_half_h
    }

    /// x of the left paddle's centre, fixed at spawn.
    pub open spec fn left_paddle_x(self) -> int {
        -self.half_width + self.paddle_half_w
    }

    /// x of the right paddle's centre, fixed at spawn.
    pub open spec fn right_paddle_x(self) -> int {
        self.half_width - self.paddle_half_w
    }
}

/// Why a configuration was rejected at startup.
#[derive(Clone, Copy, PartialEq, Eq, Structural, Debug)]
pub enum ConfigError {
    /// A dimension or extent was zero or negative.
    NonPositiveDimension,
    /// A dimension was not even, so the field has no centre on the grid.
    UnevenDimension,
    /// A dimension exceeds what the integer grid can carry.
    DimensionTooLarge,
    /// The paddle or the ball is taller than the field.
    EntityTooTall,
    /// Two paddle widths plus the ball do not fit between the goals.
    FieldTooNarrow,
}

/// Validated play-field configuration. All lengths are in subunits;
/// the field is centred on the origin, so edges sit at plus and minus
/// the half extents.
#[derive(Clone, Copy)]
pub struct SimConfig {
    pub half_width: i64,
    pub half_height: i64,
    pub paddle_half_w: i64,
    pub paddle_half_h: i64,
    pub ball_half_w: i64,
    pub ball_half_h: i64,
    pub serve_delay_ms: u64,
}

impl View for SimConfig {
    type V = ConfigModel;

    open spec fn view(&self) -> ConfigModel {
        ConfigModel {
            half_width: self.half_width as int,
            half_height: self.half_height as int,
            paddle_half_w: self.paddle_half_w as int,
            paddle_half_h: self.paddle_half_h as int,
            ball_half_w: self.ball_half_w as int,
            ball_half_h: self.ball_half_h as int,
            serve_delay_ms: self.serve_delay_ms as int,
        }
    }
}

impl SimConfig {
    /// Builds a configuration from full extents (field width and
    /// height, paddle width and height, ball width and height, all in
    /// subunits) and the serve delay. Fails fast exactly when a length
    /// is not positive, not even, too large for the grid, or when the
    /// entities cannot stand inside the field.
    pub fn new(
        width: i64,
        height: i64,
        paddle_width: i64,
        paddle_height: i64,
        ball_width: i64,
        ball_height: i64,
        serve_delay_ms: u64,
    ) -> (r: Result<SimConfig, ConfigError>)
        ensures
            match r {
                Ok(c) => {
                    &&& c@.valid()
                    &&& c@.half_width == width / 2
                    &&& c@.half_height == height / 2
                    &&& c@.paddle_half_w == paddle_width / 2
                    &&& c@.paddle_half_h == paddle_height / 2
                    &&& c@.ball_half_w == ball_width / 2
                    &&& c@.ball_half_h == ball_height / 2
                    &&& c@.serve_delay_ms == serve_delay_ms
                },
                Err(e) => match e {
                    ConfigError::NonPositiveDimension => {
                        width <= 0 || height <= 0 || paddle_width <= 0 || paddle_height <= 0
                            || ball_width <= 0 || ball_height <= 0
                    },
                    ConfigError::UnevenDimension => {
                        width % 2 != 0 || height % 2 != 0 || paddle_width % 2 != 0
                            || paddle_height % 2 != 0 || ball_width % 2 != 0 || ball_height % 2 != 0
                    },
                    ConfigError::DimensionTooLarge => {
                        width / 2 > DIM_LIMIT || height / 2 > DIM_LIMIT
                            || paddle_width / 2 > DIM_LIMIT || paddle_height / 2 > DIM_LIMIT
                            || ball_width / 2 > DIM_LIMIT || ball_height / 2 > DIM_LIMIT
                    },
                    ConfigError::EntityTooTall => {
                        paddle_height / 2 > height / 2 || ball_height / 2 > height / 2
                    },
                    ConfigError::FieldTooNarrow => {
                        2 * (paddle_width / 2) + ball_width / 2 > width / 2
                    },
                },
            },
            r is Ok <==> {
                &&& width > 0 && height > 0 && paddle_width > 0 && paddle_height > 0
                    && ball_width > 0 && ball_height > 0
                &&& width % 2 == 0 && height % 2 == 0 && paddle_width % 2 == 0
                    && paddle_height % 2 == 0 && ball_width % 2 == 0 && ball_height % 2 == 0
                &&& width / 2 <= DIM_LIMIT && height / 2 <= DIM_LIMIT
                    && paddle_width / 2 <= DIM_LIMIT && paddle_height / 2 <= DIM_LIMIT
                    && ball_width / 2 <= DIM_LIMIT && ball_height / 2 <= DIM_LIMIT
                &&& paddle_height / 2 <= height / 2 && ball_height / 2 <= height / 2
                &&& 2 * (paddle_width / 2) + ball_width / 2 <= width / 2
            },
    {
        if width <= 0 || height <= 0 || paddle_width <= 0 || paddle_height <= 0 || ball_width <= 0
            || ball_height <= 0 {
            return Err(ConfigError::NonPositiveDimension);
        }
        if width % 2 != 0 || height % 2 != 0 || paddle_width % 2 != 0 || paddle_height % 2 != 0
            || ball_width % 2 != 0 || ball_height % 2 != 0 {
            return Err(ConfigError::UnevenDimension);
        }
        let half_width: i64 = width / 2;
        let half_height: i64 = height / 2;
        let paddle_half_w: i64 = paddle_width / 2;
        let paddle_half_h: i64 = paddle_height / 2;
        let ball_half_w: i64 = ball_width / 2;
        let ball_half_h: i64 = ball_height / 2;
        if half_width > DIM_LIMIT || half_height > DIM_LIMIT || paddle_half_w > DIM_LIMIT
            || paddle_half_h > DIM_LIMIT || ball_half_w > DIM_LIMIT || ball_half_h > DIM_LIMIT {
            return Err(ConfigError::DimensionTooLarge);
        }
        if paddle_half_h > half_height || ball_half_h > half_height {
            return Err(ConfigError::EntityTooTall);
        }
        if 2 * paddle_half_w + ball_half_w > half_width {
            return Err(ConfigError::FieldTooNarrow);
        }
        Ok(
            SimConfig {
                half_width,
                half_height,
                paddle_half_w,
                paddle_half_h,
                ball_half_w,
                ball_half_h,
                serve_delay_ms,
            },
        )
    }

    /// y of the field's top edge.
    pub fn top_edge(&self) -> (r: i64)
        ensures
            r == self@.top_edge(),
    {
        self.half_height
    }

    /// y of the field's bottom edge.
    pub fn bottom_edge(&self) -> (r: i64)
        requires
            self@.valid(),
        ensures
            r == self@.bottom_edge(),
    {
        -self.half_height
    }

    /// x of the field's left edge.
    pub fn left_edge(&self) -> (r: i64)
        requires
            self@.valid(),
        ensures
            r == self@.left_edge(),
    {
        -self.half_width
    }

    /// x of the field's right edge.
    pub fn right_edge(&self) -> (r: i64)
        ensures
            r == self@.right_edge(),
    {
        self.half_width
    }
}

} // verus!
