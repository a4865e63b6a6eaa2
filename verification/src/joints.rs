//! The arm joint-angle record and its name-indexed access. Floating-point
//! joint arithmetic and interpolation live with the motion layer outside
//! this crate; the record itself is generic in the angle representation.

use vstd::prelude::*;

verus! {

/// Name of one arm joint.
#[derive(Clone, Copy, Debug, PartialEq, Eq, Structural)]
pub enum ArmJointsName {
    ShoulderPitch,
    ShoulderRoll,
    ElbowYaw,
    ElbowRoll,
    WristYaw,
    Hand,
}

/// One value per arm joint.
#[derive(Clone, Copy, Debug, Default, PartialEq, Eq)]
pub struct ArmJoints<T> {
    pub shoulder_pitch: T,
    pub shoulder_roll: T,
    pub elbow_yaw: T,
    pub elbow_roll: T,
    pub wrist_yaw: T,
    pub hand: T,
}

impl<T> ArmJoints<T> {
    /// The field selected by `name`.
    pub open spec fn spec_field(self, name: ArmJointsName) -> T {
        match name {
            ArmJointsName::ShoulderPitch => self.shoulder_pitch,
            ArmJointsName::ShoulderRoll => self.shoulder_roll,
            ArmJointsName::ElbowYaw => self.elbow_yaw,
            ArmJointsName::ElbowRoll => self.elbow_roll,
            ArmJointsName::WristYaw => self.wrist_yaw,
            ArmJointsName::Hand => self.hand,
        }
    }

    /// Borrow the joint value selected by `name`.
    pub fn get(&self, name: ArmJointsName) -> (r: &T)
        ensures
            *r == self.spec_field(name),
    {
        match name {
            ArmJointsName::ShoulderPitch => &self.shoulder_pitch,
            ArmJointsName::ShoulderRoll => &self.shoulder_roll,
            ArmJointsName::ElbowYaw => &self.elbow_yaw,
            ArmJointsName::ElbowRoll => &self.elbow_roll,
            ArmJointsName::WristYaw => &self.wrist_yaw,
            ArmJointsName::Hand => &self.hand,
        }
    }

    /// Overwrite the joint value selected by `name`.
    pub fn set(&mut self, name: ArmJointsName, value: T)
        ensures
            forall|n: ArmJointsName| n != name ==> final(self).spec_field(n) == old(
                self,
            ).spec_field(n),
            final(self).spec_field(name) == value,
    {
        match name {
            ArmJointsName::ShoulderPitch => {
                self.shoulder_pitch = value;
            },
            ArmJointsName::ShoulderRoll => {
                self.shoulder_roll = value;
            },
            ArmJointsName::ElbowYaw => {
                self.elbow_yaw = value;
            },
            ArmJointsName::ElbowRoll => {
                self.elbow_roll = value;
            },
            ArmJointsName::WristYaw => {
                self.wrist_yaw = value;
            },
            ArmJointsName::Hand => {
                self.hand = value;
            },
        }
    }

    /// The joint values in declaration order.
    pub fn to_array(self) -> (r: [T; 6])
        ensures
            r@ == seq![
                self.shoulder_pitch,
                self.shoulder_roll,
                self.elbow_yaw,
                self.elbow_roll,
                self.wrist_yaw,
                self.hand,
            ],
    {
        let r = [
            self.shoulder_pitch,
            self.shoulder_roll,
            self.elbow_yaw,
            self.elbow_roll,
            self.wrist_yaw,
            self.hand,
        ];
        proof {
            assert(r@ =~= seq![
                self.shoulder_pitch,
                self.shoulder_roll,
                self.elbow_yaw,
                self.elbow_roll,
                self.wrist_yaw,
                self.hand,
            ]);
        }
        r
    }
}

impl<T: Clone> ArmJoints<T> {
    /// Every joint set to (a clone of) `value`; the hand receives `value`
    /// itself.
    pub fn fill(value: T) -> (r: Self)
        ensures
            cloned(value, r.shoulder_pitch),
            cloned(value, r.shoulder_roll),
            cloned(value, r.elbow_yaw),
            cloned(value, r.elbow_roll),
            cloned(value, r.wrist_yaw),
            r.hand == value,
    {
        ArmJoints {
            shoulder_pitch: value.clone(),
            shoulder_roll: value.clone(),
            elbow_yaw: value.clone(),
            elbow_roll: value.clone(),
            wrist_yaw: value.clone(),
            hand: value,
        }
    }
}

} // verus!
