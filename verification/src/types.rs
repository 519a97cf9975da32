//! The closed vocabularies the bridge translates between: simulator sensor
//! types, bus point-field types, and the traffic-signal code tables.
//!
//! Each enum that the bus represents as a small integer carries a `code`
//! method giving that integer.

use vstd::prelude::*;

verus! {

#[derive(Debug, Clone, Copy, PartialEq, Eq, Structural)]
#[allow(non_camel_case_types)]
pub enum DerivedObjClassification {
    UNKNOWN,
    UNKNOWN_SMALL,
    UNKNOWN_MEDIUM,
    UNKNOWN_BIG,
    PEDESTRIAN,
    BIKE,
    CAR,
    TRUCK,
    MOTORCYCLE,
    OTHER_VEHICLE,
    BARRIER,
    SIGN,
}

impl DerivedObjClassification {
    /// The wire code of this classification.
    pub open spec fn spec_code(self) -> u8 {
        match self {
            DerivedObjClassification::UNKNOWN => 0,
            DerivedObjClassification::UNKNOWN_SMALL => 1,
            DerivedObjClassification::UNKNOWN_MEDIUM => 2,
            DerivedObjClassification::UNKNOWN_BIG => 3,
            DerivedObjClassification::PEDESTRIAN => 4,
            DerivedObjClassification::BIKE => 5,
            DerivedObjClassification::CAR => 6,
            DerivedObjClassification::TRUCK => 7,
            DerivedObjClassification::MOTORCYCLE => 8,
            DerivedObjClassification::OTHER_VEHICLE => 9,
            DerivedObjClassification::BARRIER => 10,
            DerivedObjClassification::SIGN => 11,
        }
    }

    pub fn code(self) -> (r: u8)
        ensures
            r == self.spec_code(),
    {
        match self {
            DerivedObjClassification::UNKNOWN => 0,
            DerivedObjClassification::UNKNOWN_SMALL => 1,
            DerivedObjClassification::UNKNOWN_MEDIUM => 2,
            DerivedObjClassification::UNKNOWN_BIG => 3,
            DerivedObjClassification::PEDESTRIAN => 4,
            DerivedObjClassification::BIKE => 5,
            DerivedObjClassification::CAR => 6,
            DerivedObjClassification::TRUCK => 7,
            DerivedObjClassification::MOTORCYCLE => 8,
            DerivedObjClassification::OTHER_VEHICLE => 9,
            DerivedObjClassification::BARRIER => 10,
            DerivedObjClassification::SIGN => 11,
        }
    }
}

#[derive(Debug, Clone, Copy, PartialEq, Eq, Structural)]
#[allow(non_camel_case_types)]
pub enum AutowareClassification {
    UNKNOWN,
    CAR,
    TRUCK,
    BUS,
    TRAILER,
    MOTORCYCLE,
    BICYCLE,
    PEDESTRIAN,
}

impl AutowareClassification {
    /// The wire code of this classification.
    pub open spec fn spec_code(self) -> u8 {
        match self {
            AutowareClassification::UNKNOWN => 0,
            AutowareClassification::CAR => 1,
            AutowareClassification::TRUCK => 2,
            AutowareClassification::BUS => 3,
            AutowareClassification::TRAILER => 4,
            AutowareClassification::MOTORCYCLE => 5,
            AutowareClassification::BICYCLE => 6,
            AutowareClassification::PEDESTRIAN => 7,
        }
    }

    pub fn code(self) -> (r: u8)
        ensures
            r == self.spec_code(),
    {
        match self {
            AutowareClassification::UNKNOWN => 0,
            AutowareClassification::CAR => 1,
            AutowareClassification::TRUCK => 2,
            AutowareClassification::BUS => 3,
            AutowareClassification::TRAILER => 4,
            AutowareClassification::MOTORCYCLE => 5,
            AutowareClassification::BICYCLE => 6,
            AutowareClassification::PEDESTRIAN => 7,
        }
    }
}

#[derive(Debug, Clone, Copy, PartialEq, Eq, Structural)]
#[allow(non_camel_case_types)]
pub enum SolidPrimitiveType {
    BOX,
    SPHERE,
    CYLINDER,
    CONE,
}

impl SolidPrimitiveType {
    /// The wire code of this primitive type.
    pub open spec fn spec_code(self) -> u8 {
        match self {
            SolidPrimitiveType::BOX => 1,
            SolidPrimitiveType::SPHERE => 2,
            SolidPrimitiveType::CYLINDER => 3,
            SolidPrimitiveType::CONE => 4,
        }
    }

    pub fn code(self) -> (r: u8)
        ensures
            r == self.spec_code(),
    {
        match self {
            SolidPrimitiveType::BOX => 1,
            SolidPrimitiveType::SPHERE => 2,
            SolidPrimitiveType::CYLINDER => 3,
            SolidPrimitiveType::CONE => 4,
        }
    }
}

#[derive(Debug, Clone, Copy, PartialEq, Eq, Structural)]
#[allow(non_camel_case_types)]
pub enum AutowareShapeType {
    BOUNDING_BOX,
    CYLINDER,
    POLYGON,
}

impl AutowareShapeType {
    /// The wire code of this shape type.
    pub open spec fn spec_code(self) -> u8 {
        match self {
            AutowareShapeType::BOUNDING_BOX => 0,
            AutowareShapeType::CYLINDER => 1,
            AutowareShapeType::POLYGON => 2,
        }
    }

    pub fn code(self) -> (r: u8)
        ensures
            r == self.spec_code(),
    {
        match self {
            AutowareShapeType::BOUNDING_BOX => 0,
            AutowareShapeType::CYLINDER => 1,
            AutowareShapeType::POLYGON => 2,
        }
    }
}

/// The element types a point-cloud field descriptor can advertise.
#[derive(Debug, Clone, Copy, PartialEq, Eq, Structural)]
#[allow(non_camel_case_types)]
pub enum PointFieldType {
    INT8,
    UINT8,
    INT16,
    UINT16,
    INT32,
    UINT32,
    FLOAT32,
    FLOAT64,
}

impl PointFieldType {
    /// The wire code of this element type.
    pub open spec fn spec_code(self) -> u8 {
        match self {
            PointFieldType::INT8 => 1,
            PointFieldType::UINT8 => 2,
            PointFieldType::INT16 => 3,
            PointFieldType::UINT16 => 4,
            PointFieldType::INT32 => 5,
            PointFieldType::UINT32 => 6,
            PointFieldType::FLOAT32 => 7,
            PointFieldType::FLOAT64 => 8,
        }
    }

    pub fn code(self) -> (r: u8)
        ensures
            r == self.spec_code(),
    {
        match self {
            PointFieldType::INT8 => 1,
            PointFieldType::UINT8 => 2,
            PointFieldType::INT16 => 3,
            PointFieldType::UINT16 => 4,
            PointFieldType::INT32 => 5,
            PointFieldType::UINT32 => 6,
            PointFieldType::FLOAT32 => 7,
            PointFieldType::FLOAT64 => 8,
        }
    }
}

/// The sensor modalities the bridge encodes.
#[derive(Debug, Clone, Copy, PartialEq, Eq, Structural)]
pub enum SensorType {
    CameraRgb,
    LidarRayCast,
    LidarRayCastSemantic,
    Imu,
    Collision,
}

/// The sensor type named by a simulator type identifier, or `None` for an
/// unsupported identifier.
pub open spec fn spec_sensor_type(text: Seq<char>) -> Option<SensorType> {
    if text == "sensor.camera.rgb"@ {
        Some(SensorType::CameraRgb)
    } else if text == "sensor.lidar.ray_cast"@ {
        Some(SensorType::LidarRayCast)
    } else if text == "sensor.lidar.ray_cast_semantic"@ {
        Some(SensorType::LidarRayCastSemantic)
    } else if text == "sensor.other.imu"@ {
        Some(SensorType::Imu)
    } else if text == "sensor.other.collision"@ {
        Some(SensorType::Collision)
    } else {
        None
    }
}

impl SensorType {
    /// Parses a simulator sensor type identifier.  Unsupported identifiers
    /// yield `None`; the caller warns once and skips the sensor's data
    /// stream.
    pub fn from_str(text: &str) -> (r: Option<SensorType>)
        ensures
            r == spec_sensor_type(text@),
    {
        let owned = text.to_owned();
        if owned == "sensor.camera.rgb".to_owned() {
            Some(SensorType::CameraRgb)
        } else if owned == "sensor.lidar.ray_cast".to_owned() {
            Some(SensorType::LidarRayCast)
        } else if owned == "sensor.lidar.ray_cast_semantic".to_owned() {
            Some(SensorType::LidarRayCastSemantic)
        } else if owned == "sensor.other.imu".to_owned() {
            Some(SensorType::Imu)
        } else if owned == "sensor.other.collision".to_owned() {
            Some(SensorType::Collision)
        } else {
            None
        }
    }
}

/// The lamp states the simulator can report for a traffic light.
#[derive(Debug, Clone, Copy, PartialEq, Eq, Structural)]
pub enum LightState {
    Red,
    Yellow,
    Green,
    Off,
    Unknown,
}

#[derive(Debug, Clone, Copy, PartialEq, Eq, Structural)]
#[allow(non_camel_case_types)]
pub enum TrafficLightColor {
    RED,
    AMBER,
    GREEN,
    WHITE,
}

impl TrafficLightColor {
    /// The wire code of this lamp color.
    pub open spec fn spec_code(self) -> u8 {
        match self {
            TrafficLightColor::RED => 1,
            TrafficLightColor::AMBER => 2,
            TrafficLightColor::GREEN => 3,
            TrafficLightColor::WHITE => 4,
        }
    }

    pub fn code(self) -> (r: u8)
        ensures
            r == self.spec_code(),
    {
        match self {
            TrafficLightColor::RED => 1,
            TrafficLightColor::AMBER => 2,
            TrafficLightColor::GREEN => 3,
            TrafficLightColor::WHITE => 4,
        }
    }
}

#[derive(Debug, Clone, Copy, PartialEq, Eq, Structural)]
#[allow(non_camel_case_types)]
pub enum TrafficLightShape {
    CIRCLE,
    LEFT_ARROW,
    RIGHT_ARROW,
    UP_ARROW,
    DOWN_ARROW,
    DOWN_LEFT_ARROW,
    DOWN_RIGHT_ARROW,
    CROSS,
}

impl TrafficLightShape {
    /// The wire code of this lamp shape.
    pub open spec fn spec_code(self) -> u8 {
        match self {
            TrafficLightShape::CIRCLE => 5,
            TrafficLightShape::LEFT_ARROW => 6,
            TrafficLightShape::RIGHT_ARROW => 7,
            TrafficLightShape::UP_ARROW => 8,
            TrafficLightShape::DOWN_ARROW => 9,
            TrafficLightShape::DOWN_LEFT_ARROW => 10,
            TrafficLightShape::DOWN_RIGHT_ARROW => 11,
            TrafficLightShape::CROSS => 12,
        }
    }

    pub fn code(self) -> (r: u8)
        ensures
            r == self.spec_code(),
    {
        match self {
            TrafficLightShape::CIRCLE => 5,
            TrafficLightShape::LEFT_ARROW => 6,
            TrafficLightShape::RIGHT_ARROW => 7,
            TrafficLightShape::UP_ARROW => 8,
            TrafficLightShape::DOWN_ARROW => 9,
            TrafficLightShape::DOWN_LEFT_ARROW => 10,
            TrafficLightShape::DOWN_RIGHT_ARROW => 11,
            TrafficLightShape::CROSS => 12,
        }
    }
}

#[derive(Debug, Clone, Copy, PartialEq, Eq, Structural)]
#[allow(non_camel_case_types)]
pub enum TrafficLightStatus {
    SOLID_OFF,
    SOLID_ON,
    FLASHING,
}

impl TrafficLightStatus {
    /// The wire code of this lamp status.
    pub open spec fn spec_code(self) -> u8 {
        match self {
            TrafficLightStatus::SOLID_OFF => 13,
            TrafficLightStatus::SOLID_ON => 14,
            TrafficLightStatus::FLASHING => 15,
        }
    }

    pub fn code(self) -> (r: u8)
        ensures
            r == self.spec_code(),
    {
        match self {
            TrafficLightStatus::SOLID_OFF => 13,
            TrafficLightStatus::SOLID_ON => 14,
            TrafficLightStatus::FLASHING => 15,
        }
    }
}

} // verus!
